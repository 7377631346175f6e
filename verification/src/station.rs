use vstd::prelude::*;

use crate::config::Config;

verus! {

/// The stages a station-mode interface passes through on its way up.
///
/// The order is strict: `Unconfigured`, `Configured`, `Started`,
/// `Associating` (where the readiness poll loop repeats), `LinkUp`
/// (readiness observed true, address assignment pending), `Ready`.
#[derive(Clone, Copy, Debug, PartialEq, Eq, Structural)]
pub enum ConnectionState {
    /// Fresh handle: no client configuration applied yet.
    Unconfigured,
    /// The driver accepted the client configuration.
    Configured,
    /// The radio subsystem is running.
    Started,
    /// The association handshake was requested; readiness is polled.
    Associating,
    /// Readiness observed true; waiting for the network stack to come up.
    LinkUp,
    /// Interface fully up, with an assigned address.
    Ready,
}

/// The driver call the caller must perform next for a given state.
#[derive(Clone, Copy, Debug, PartialEq, Eq, Structural)]
pub enum Action {
    /// Apply the client-mode configuration built from the credentials.
    ApplyConfiguration,
    /// Start the radio subsystem.
    StartRadio,
    /// Initiate the non-blocking association handshake.
    RequestAssociation,
    /// Query the readiness predicate once; on a false answer, sleep one
    /// fixed interval before the next query.
    PollReadiness,
    /// Block until the network stack reports the interface up.
    AwaitNetworkUp,
    /// The sequence is complete; nothing is left to do.
    Done,
}

/// A driver's answer to a performed [`Action`].
#[derive(Clone, Copy, Debug, PartialEq, Eq, Structural)]
pub enum Event {
    /// The client configuration was accepted.
    ConfigurationApplied,
    /// The client configuration was rejected.
    ConfigurationRejected,
    /// The radio subsystem started.
    RadioStarted,
    /// The radio subsystem failed to start.
    RadioStartFailed,
    /// The association handshake was initiated.
    AssociationRequested,
    /// The association handshake could not be initiated.
    AssociationRequestFailed,
    /// One answer of the readiness predicate.
    Readiness(bool),
    /// The network stack reports the interface up.
    NetworkUp,
}

/// A terminal stage failure. Every stage error aborts the whole sequence
/// at once: there is no retry, no backoff and no rollback.
#[derive(Clone, Copy, Debug, PartialEq, Eq, Structural)]
pub enum ConnectionError {
    /// The driver rejected the client configuration.
    ConfigurationError,
    /// The radio subsystem failed to start.
    StartError,
    /// The association handshake could not be initiated.
    AssociationRequestError,
}

/// The action each state calls for.
pub open spec fn spec_action(s: ConnectionState) -> Action {
    match s {
        ConnectionState::Unconfigured => Action::ApplyConfiguration,
        ConnectionState::Configured => Action::StartRadio,
        ConnectionState::Started => Action::RequestAssociation,
        ConnectionState::Associating => Action::PollReadiness,
        ConnectionState::LinkUp => Action::AwaitNetworkUp,
        ConnectionState::Ready => Action::Done,
    }
}

/// Whether `e` is an answer a driver can give to the action of state `s`.
/// No event answers `Ready`: its action is `Done`, which performs no call.
pub open spec fn responds(s: ConnectionState, e: Event) -> bool {
    match s {
        ConnectionState::Unconfigured => e is ConfigurationApplied || e is ConfigurationRejected,
        ConnectionState::Configured => e is RadioStarted || e is RadioStartFailed,
        ConnectionState::Started => e is AssociationRequested || e is AssociationRequestFailed,
        ConnectionState::Associating => e is Readiness,
        ConnectionState::LinkUp => e is NetworkUp,
        ConnectionState::Ready => false,
    }
}

/// The transition the machine makes in state `s` on answer `e`: the next
/// state, or the terminal error that aborts the sequence.
pub open spec fn spec_step(s: ConnectionState, e: Event) -> Result<
    ConnectionState,
    ConnectionError,
>
    recommends
        responds(s, e),
{
    match (s, e) {
        (ConnectionState::Unconfigured, Event::ConfigurationApplied) => Ok(
            ConnectionState::Configured,
        ),
        (ConnectionState::Unconfigured, Event::ConfigurationRejected) => Err(
            ConnectionError::ConfigurationError,
        ),
        (ConnectionState::Configured, Event::RadioStarted) => Ok(ConnectionState::Started),
        (ConnectionState::Configured, Event::RadioStartFailed) => Err(ConnectionError::StartError),
        (ConnectionState::Started, Event::AssociationRequested) => Ok(
            ConnectionState::Associating,
        ),
        (ConnectionState::Started, Event::AssociationRequestFailed) => Err(
            ConnectionError::AssociationRequestError,
        ),
        (ConnectionState::Associating, Event::Readiness(true)) => Ok(ConnectionState::LinkUp),
        (ConnectionState::Associating, Event::Readiness(false)) => Ok(
            ConnectionState::Associating,
        ),
        (ConnectionState::LinkUp, Event::NetworkUp) => Ok(ConnectionState::Ready),
        _ => Ok(s),
    }
}

/// Drives a network-interface handle through the stage sequence.
///
/// The connector holds no driver resource itself: the caller owns the
/// handle, performs one driver call per [`Action`] and hands the answer
/// back as an [`Event`]. The connector decides what comes next.
pub struct StationConnector {
    /// The credentials the configuration stage applies. Carried verbatim;
    /// never validated here.
    pub config: Config,
    /// The stage reached so far.
    pub state: ConnectionState,
}

impl StationConnector {
    /// A connector for a freshly acquired, not yet configured handle.
    pub fn new(config: Config) -> (c: StationConnector)
        ensures
            c.state == ConnectionState::Unconfigured,
            c.config == config,
    {
        StationConnector { config, state: ConnectionState::Unconfigured }
    }

    /// The driver call the caller must perform next.
    pub fn next_action(&self) -> (a: Action)
        ensures
            a == spec_action(self.state),
    {
        match self.state {
            ConnectionState::Unconfigured => Action::ApplyConfiguration,
            ConnectionState::Configured => Action::StartRadio,
            ConnectionState::Started => Action::RequestAssociation,
            ConnectionState::Associating => Action::PollReadiness,
            ConnectionState::LinkUp => Action::AwaitNetworkUp,
            ConnectionState::Ready => Action::Done,
        }
    }

    /// Advance by one driver answer.
    ///
    /// The caller must hand back an answer to the action of the current
    /// state. In particular, calling this on a connector already `Ready`
    /// is deliberately left out of the contract: the stage sequence is
    /// over, no action is pending, and what a repeated run would do to an
    /// already-associated handle is undefined.
    ///
    /// On a stage failure the error is returned at once and the connector
    /// is left exactly as it was: no retry, no rollback.
    pub fn handle_event(&mut self, e: Event) -> (r: Result<(), ConnectionError>)
        requires
            responds(old(self).state, e),
        ensures
            final(self).config == old(self).config,
            spec_step(old(self).state, e) matches Ok(s2) ==> r is Ok && final(self).state == s2,
            spec_step(old(self).state, e) matches Err(err) ==> r matches Err(e2) && e2 == err
                && final(self).state == old(self).state,
    {
        let next: Result<ConnectionState, ConnectionError> = match (self.state, e) {
            (ConnectionState::Unconfigured, Event::ConfigurationApplied) => Ok(
                ConnectionState::Configured,
            ),
            (ConnectionState::Unconfigured, Event::ConfigurationRejected) => Err(
                ConnectionError::ConfigurationError,
            ),
            (ConnectionState::Configured, Event::RadioStarted) => Ok(ConnectionState::Started),
            (ConnectionState::Configured, Event::RadioStartFailed) => Err(
                ConnectionError::StartError,
            ),
            (ConnectionState::Started, Event::AssociationRequested) => Ok(
                ConnectionState::Associating,
            ),
            (ConnectionState::Started, Event::AssociationRequestFailed) => Err(
                ConnectionError::AssociationRequestError,
            ),
            (ConnectionState::Associating, Event::Readiness(true)) => Ok(ConnectionState::LinkUp),
            (ConnectionState::Associating, Event::Readiness(false)) => Ok(
                ConnectionState::Associating,
            ),
            (ConnectionState::LinkUp, Event::NetworkUp) => Ok(ConnectionState::Ready),
            _ => Ok(self.state),
        };
        match next {
            Ok(s) => {
                self.state = s;
                Ok(())
            },
            Err(err) => Err(err),
        }
    }
}

/// Law: the stage order is strict. Each state is entered only from its
/// predecessor, by the one event that completes the predecessor's action;
/// a false readiness answer repeats `Associating`; and `Ready` is entered
/// only from `LinkUp`, which itself is reached only by a readiness answer
/// of true. So a run that ends `Ready` passed through configuration,
/// start, association and a true poll, in that order.
pub proof fn lemma_strict_stage_order(s: ConnectionState, e: Event)
    requires
        responds(s, e),
    ensures
        spec_step(s, e) == Ok::<ConnectionState, ConnectionError>(ConnectionState::Configured)
            ==> s == ConnectionState::Unconfigured && e == Event::ConfigurationApplied,
        spec_step(s, e) == Ok::<ConnectionState, ConnectionError>(ConnectionState::Started) ==> s
            == ConnectionState::Configured && e == Event::RadioStarted,
        spec_step(s, e) == Ok::<ConnectionState, ConnectionError>(ConnectionState::Associating)
            ==> (s == ConnectionState::Started && e == Event::AssociationRequested) || (s
            == ConnectionState::Associating && e == Event::Readiness(false)),
        spec_step(s, e) == Ok::<ConnectionState, ConnectionError>(ConnectionState::LinkUp) ==> s
            == ConnectionState::Associating && e == Event::Readiness(true),
        spec_step(s, e) == Ok::<ConnectionState, ConnectionError>(ConnectionState::Ready) ==> s
            == ConnectionState::LinkUp && e == Event::NetworkUp,
        spec_step(s, e) == Ok::<ConnectionState, ConnectionError>(ConnectionState::Unconfigured)
            ==> false,
{
}

} // verus!
