use vstd::prelude::*;

use crate::config::Config;
use crate::station::{Action, ConnectionError, ConnectionState, Event, StationConnector};

verus! {

/// The interface address assigned once the network stack is up: four
/// dotted-quad octets. It is read once for reporting and never stored by
/// the connection logic.
#[derive(Clone, Copy, Debug, PartialEq, Eq, Structural)]
pub struct AssignedAddress {
    pub octet0: u8,
    pub octet1: u8,
    pub octet2: u8,
    pub octet3: u8,
}

/// The answers a driver — or a test double standing in for one — gives to
/// the stage sequence: one verdict per fallible stage, the successive
/// answers of the readiness predicate, and the address assigned once the
/// network stack reports the interface up.
pub struct DriverResponses {
    /// Whether the driver accepts the client configuration.
    pub configuration_accepted: bool,
    /// Whether the radio subsystem starts.
    pub start_succeeded: bool,
    /// Whether the association handshake can be initiated.
    pub association_accepted: bool,
    /// The successive answers of the readiness predicate, polled in order.
    pub readiness: Vec<bool>,
    /// The address the stack assigns once the interface is up.
    pub address: AssignedAddress,
}

/// How a run of [`connect`] ended.
#[derive(Clone, Copy, Debug, PartialEq, Eq, Structural)]
pub enum ConnectOutcome {
    /// Every stage succeeded and the readiness predicate was observed
    /// true; the interface is up under the given address.
    Connected(AssignedAddress),
    /// A stage failed; the sequence aborted at once.
    Failed(ConnectionError),
    /// The supplied readiness answers ran out, all of them false. Against
    /// a live driver the poll loop has no timeout and would still be
    /// running; a bounded script ends here instead.
    StillAssociating,
}

/// What a run of [`connect`] did and how it ended.
#[derive(Debug)]
pub struct ConnectReport {
    /// How the run ended.
    pub outcome: ConnectOutcome,
    /// How many polls found the predicate false; each one cost one fixed
    /// sleep interval.
    pub polls_waited: usize,
    /// The driver calls made, in order.
    pub stages: Vec<Action>,
}

/// The number of leading `false` answers in a readiness script: how often
/// the poll loop sleeps before it sees true. Equal to the script's length
/// when no answer is true.
pub open spec fn leading_falses(r: Seq<bool>) -> nat
    decreases r.len(),
{
    if r.len() == 0 {
        0
    } else if r[0] {
        0
    } else {
        1 + leading_falses(r.subrange(1, r.len() as int))
    }
}

/// How [`connect`] ends for given driver responses: the first failing
/// stage's error; `StillAssociating` when every readiness answer is
/// false; the assigned address otherwise.
pub open spec fn spec_connect(r: DriverResponses) -> ConnectOutcome {
    if !r.configuration_accepted {
        ConnectOutcome::Failed(ConnectionError::ConfigurationError)
    } else if !r.start_succeeded {
        ConnectOutcome::Failed(ConnectionError::StartError)
    } else if !r.association_accepted {
        ConnectOutcome::Failed(ConnectionError::AssociationRequestError)
    } else if leading_falses(r.readiness@) == r.readiness@.len() {
        ConnectOutcome::StillAssociating
    } else {
        ConnectOutcome::Connected(r.address)
    }
}

/// How many sleep intervals [`connect`] spends for given driver
/// responses: none before the poll loop is reached, one per leading false
/// readiness answer once it is.
pub open spec fn spec_polls_waited(r: DriverResponses) -> nat {
    if !r.configuration_accepted || !r.start_succeeded || !r.association_accepted {
        0
    } else {
        leading_falses(r.readiness@)
    }
}

/// The driver calls [`connect`] makes for given responses, in order: the
/// three stage calls as far as they succeed, one poll per readiness
/// answer consumed, and the wait for the network stack only after a poll
/// answered true.
pub open spec fn spec_stage_trace(r: DriverResponses) -> Seq<Action> {
    if !r.configuration_accepted {
        seq![Action::ApplyConfiguration]
    } else if !r.start_succeeded {
        seq![Action::ApplyConfiguration, Action::StartRadio]
    } else if !r.association_accepted {
        seq![Action::ApplyConfiguration, Action::StartRadio, Action::RequestAssociation]
    } else if leading_falses(r.readiness@) == r.readiness@.len() {
        seq![Action::ApplyConfiguration, Action::StartRadio, Action::RequestAssociation]
            + Seq::new(r.readiness@.len(), |i: int| Action::PollReadiness)
    } else {
        seq![Action::ApplyConfiguration, Action::StartRadio, Action::RequestAssociation]
            + Seq::new(leading_falses(r.readiness@) + 1, |i: int| Action::PollReadiness)
            + seq![Action::AwaitNetworkUp]
    }
}

/// The leading-false count is the index of the first true answer: every
/// answer before it is false, and the answer at it — when one exists at
/// all — is true.
pub proof fn lemma_leading_falses(r: Seq<bool>)
    ensures
        leading_falses(r) <= r.len(),
        leading_falses(r) < r.len() ==> r[leading_falses(r) as int],
        forall|j: int| 0 <= j < leading_falses(r) ==> !r[j],
    decreases r.len(),
{
    if r.len() == 0 {
    } else if r[0] {
    } else {
        let tail = r.subrange(1, r.len() as int);
        lemma_leading_falses(tail);
        assert forall|j: int| 0 <= j < leading_falses(r) implies !r[j] by {
            if j > 0 {
                assert(!tail[j - 1]);
            }
        }
    }
}

/// Drive a freshly acquired handle through the full stage sequence
/// against the given driver responses: apply the client configuration
/// built from `config`, start the radio, request association, poll the
/// readiness predicate — sleeping one fixed interval per false answer —
/// and, once a poll answers true, wait for the network stack and report
/// the assigned address.
///
/// The first stage failure aborts the run at once with that stage's
/// error; later stages are never reached. The poll loop has no timeout:
/// it consumes readiness answers for as long as they are false, and when
/// a bounded script runs out the run ends [`ConnectOutcome::StillAssociating`]
/// — the bounded image of a loop that, against a live driver, would poll
/// forever.
///
/// The report pins down everything the run did: how it ended, how many
/// sleep intervals it spent, and the exact sequence of driver calls made.
pub fn connect(config: &Config, responses: &DriverResponses) -> (report: ConnectReport)
    ensures
        report.outcome == spec_connect(*responses),
        report.polls_waited == spec_polls_waited(*responses),
        report.stages@ == spec_stage_trace(*responses),
{
    let mut connector = StationConnector::new(*config);
    let mut stages: Vec<Action> = Vec::new();

    stages.push(Action::ApplyConfiguration);
    let configured = connector.handle_event(
        if responses.configuration_accepted {
            Event::ConfigurationApplied
        } else {
            Event::ConfigurationRejected
        },
    );
    if let Err(err) = configured {
        proof {
            assert(stages@ =~= spec_stage_trace(*responses));
        }
        return ConnectReport { outcome: ConnectOutcome::Failed(err), polls_waited: 0, stages };
    }

    stages.push(Action::StartRadio);
    let started = connector.handle_event(
        if responses.start_succeeded {
            Event::RadioStarted
        } else {
            Event::RadioStartFailed
        },
    );
    if let Err(err) = started {
        proof {
            assert(stages@ =~= spec_stage_trace(*responses));
        }
        return ConnectReport { outcome: ConnectOutcome::Failed(err), polls_waited: 0, stages };
    }

    stages.push(Action::RequestAssociation);
    let associating = connector.handle_event(
        if responses.association_accepted {
            Event::AssociationRequested
        } else {
            Event::AssociationRequestFailed
        },
    );
    if let Err(err) = associating {
        proof {
            assert(stages@ =~= spec_stage_trace(*responses));
        }
        return ConnectReport { outcome: ConnectOutcome::Failed(err), polls_waited: 0, stages };
    }

    let mut i: usize = 0;
    let n: usize = responses.readiness.len();
    while i < n
        invariant
            i <= n == responses.readiness@.len(),
            responses.configuration_accepted,
            responses.start_succeeded,
            responses.association_accepted,
            connector.state == ConnectionState::Associating,
            forall|j: int| 0 <= j < i ==> !responses.readiness@[j],
            stages@ =~= seq![
                Action::ApplyConfiguration,
                Action::StartRadio,
                Action::RequestAssociation,
            ] + Seq::new(i as nat, |k: int| Action::PollReadiness),
        decreases n - i,
    {
        stages.push(Action::PollReadiness);
        let ready = responses.readiness[i];
        let _ = connector.handle_event(Event::Readiness(ready));
        if ready {
            proof {
                lemma_leading_falses_is(responses.readiness@, i as nat);
            }
            stages.push(Action::AwaitNetworkUp);
            let _ = connector.handle_event(Event::NetworkUp);
            proof {
                assert(stages@ =~= spec_stage_trace(*responses));
            }
            return ConnectReport {
                outcome: ConnectOutcome::Connected(responses.address),
                polls_waited: i,
                stages,
            };
        }
        i = i + 1;
    }

    proof {
        lemma_leading_falses_is(responses.readiness@, n as nat);
        assert(stages@ =~= spec_stage_trace(*responses));
    }
    ConnectReport { outcome: ConnectOutcome::StillAssociating, polls_waited: n, stages }
}

/// Pin the leading-false count from what a poll loop has seen: `i` false
/// answers, then either a true answer or the end of the script.
pub proof fn lemma_leading_falses_is(r: Seq<bool>, i: nat)
    requires
        i <= r.len(),
        forall|j: int| 0 <= j < i ==> !r[j],
        i < r.len() ==> r[i as int],
    ensures
        leading_falses(r) == i,
    decreases r.len(),
{
    if i == 0 {
    } else {
        let tail = r.subrange(1, r.len() as int);
        assert(!r[0]);
        assert forall|j: int| 0 <= j < i - 1 implies !tail[j] by {
            assert(!r[j + 1]);
        }
        lemma_leading_falses_is(tail, (i - 1) as nat);
    }
}

/// Law: for responses that accept every stage and whose readiness
/// predicate eventually answers true, `connect` performs the stages in
/// exactly the order configure, start, associate, poll, and connects; the
/// wait for the network stack comes only after the one poll that observed
/// the predicate true, and every poll before it observed it false.
pub proof fn lemma_stage_order(r: DriverResponses)
    requires
        r.configuration_accepted,
        r.start_succeeded,
        r.association_accepted,
        leading_falses(r.readiness@) < r.readiness@.len(),
    ensures
        spec_connect(r) == ConnectOutcome::Connected(r.address),
        spec_stage_trace(r) =~= seq![
            Action::ApplyConfiguration,
            Action::StartRadio,
            Action::RequestAssociation,
        ] + Seq::new(leading_falses(r.readiness@) + 1, |k: int| Action::PollReadiness)
            + seq![Action::AwaitNetworkUp],
        r.readiness@[leading_falses(r.readiness@) as int],
        forall|j: int| 0 <= j < leading_falses(r.readiness@) ==> !r.readiness@[j],
{
    lemma_leading_falses(r.readiness@);
}

/// Law: stage ordering is strict and short-circuiting. The first failing
/// stage's error is the outcome, and no later stage is ever invoked: a
/// rejected configuration means the radio is never started and
/// association is never requested.
pub proof fn lemma_short_circuit(r: DriverResponses)
    ensures
        !r.configuration_accepted ==> spec_connect(r) == ConnectOutcome::Failed(
            ConnectionError::ConfigurationError,
        ) && spec_stage_trace(r) =~= seq![Action::ApplyConfiguration],
        !r.configuration_accepted ==> !spec_stage_trace(r).contains(Action::StartRadio)
            && !spec_stage_trace(r).contains(Action::RequestAssociation),
        r.configuration_accepted && !r.start_succeeded ==> spec_connect(r)
            == ConnectOutcome::Failed(ConnectionError::StartError) && spec_stage_trace(r) =~= seq![
            Action::ApplyConfiguration,
            Action::StartRadio,
        ],
        r.configuration_accepted && !r.start_succeeded ==> !spec_stage_trace(r).contains(
            Action::RequestAssociation,
        ),
        r.configuration_accepted && r.start_succeeded && !r.association_accepted ==> spec_connect(
            r,
        ) == ConnectOutcome::Failed(ConnectionError::AssociationRequestError)
            && spec_stage_trace(r) =~= seq![
            Action::ApplyConfiguration,
            Action::StartRadio,
            Action::RequestAssociation,
        ],
        r.configuration_accepted && r.start_succeeded && !r.association_accepted
            ==> !spec_stage_trace(r).contains(Action::PollReadiness),
{
}

/// Law: when the readiness predicate never answers true, `connect`
/// neither connects nor fails. A run against a bounded script ends
/// `StillAssociating` after sleeping once per answer; against a live
/// driver the same loop would poll forever, returning nothing and raising
/// nothing — the deliberate unbounded wait.
pub proof fn lemma_unbounded_wait(r: DriverResponses)
    requires
        r.configuration_accepted,
        r.start_succeeded,
        r.association_accepted,
        forall|j: int| 0 <= j < r.readiness@.len() ==> !r.readiness@[j],
    ensures
        spec_connect(r) == ConnectOutcome::StillAssociating,
        spec_polls_waited(r) == r.readiness@.len(),
        !spec_stage_trace(r).contains(Action::AwaitNetworkUp),
{
    lemma_leading_falses_is(r.readiness@, r.readiness@.len());
    assert forall|k: int| 0 <= k < spec_stage_trace(r).len() implies spec_stage_trace(r)[k]
        != Action::AwaitNetworkUp by {
        let trace = spec_stage_trace(r);
        if k >= 3 {
            assert(trace[k] == Action::PollReadiness);
        }
    }
}

} // verus!
