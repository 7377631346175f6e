use station_connector::config::Config;
use station_connector::connect::{
    connect, AssignedAddress, ConnectOutcome, DriverResponses,
};
use station_connector::http_status::classify_status;
use station_connector::station::{
    Action, ConnectionError, ConnectionState, Event, StationConnector,
};

fn lab_config() -> Config {
    Config { wifi_ssid: "lab-net", wifi_psk: "secret123" }
}

fn lab_address() -> AssignedAddress {
    AssignedAddress { octet0: 192, octet1: 168, octet2: 1, octet3: 42 }
}

fn accepting_responses(readiness: Vec<bool>) -> DriverResponses {
    DriverResponses {
        configuration_accepted: true,
        start_succeeded: true,
        association_accepted: true,
        readiness,
        address: lab_address(),
    }
}

#[test]
fn connect_returns_after_two_polls() {
    let report = connect(&lab_config(), &accepting_responses(vec![false, false, true]));
    assert_eq!(report.outcome, ConnectOutcome::Connected(lab_address()));
    assert_eq!(report.polls_waited, 2);
    assert_eq!(
        report.stages,
        vec![
            Action::ApplyConfiguration,
            Action::StartRadio,
            Action::RequestAssociation,
            Action::PollReadiness,
            Action::PollReadiness,
            Action::PollReadiness,
            Action::AwaitNetworkUp,
        ]
    );
}

#[test]
fn connect_with_immediate_readiness_never_sleeps() {
    let report = connect(&lab_config(), &accepting_responses(vec![true]));
    assert_eq!(report.outcome, ConnectOutcome::Connected(lab_address()));
    assert_eq!(report.polls_waited, 0);
    assert_eq!(
        report.stages,
        vec![
            Action::ApplyConfiguration,
            Action::StartRadio,
            Action::RequestAssociation,
            Action::PollReadiness,
            Action::AwaitNetworkUp,
        ]
    );
}

#[test]
fn configuration_failure_short_circuits() {
    let config = Config { wifi_ssid: "", wifi_psk: "secret123" };
    let responses = DriverResponses {
        configuration_accepted: false,
        start_succeeded: true,
        association_accepted: true,
        readiness: vec![true],
        address: lab_address(),
    };
    let report = connect(&config, &responses);
    assert_eq!(
        report.outcome,
        ConnectOutcome::Failed(ConnectionError::ConfigurationError)
    );
    assert_eq!(report.polls_waited, 0);
    assert_eq!(report.stages, vec![Action::ApplyConfiguration]);
    assert!(!report.stages.contains(&Action::StartRadio));
    assert!(!report.stages.contains(&Action::RequestAssociation));
}

#[test]
fn start_failure_aborts_before_association() {
    let responses = DriverResponses {
        configuration_accepted: true,
        start_succeeded: false,
        association_accepted: true,
        readiness: vec![true],
        address: lab_address(),
    };
    let report = connect(&lab_config(), &responses);
    assert_eq!(report.outcome, ConnectOutcome::Failed(ConnectionError::StartError));
    assert_eq!(report.polls_waited, 0);
    assert_eq!(report.stages, vec![Action::ApplyConfiguration, Action::StartRadio]);
}

#[test]
fn association_failure_aborts_before_polling() {
    let responses = DriverResponses {
        configuration_accepted: true,
        start_succeeded: true,
        association_accepted: false,
        readiness: vec![true],
        address: lab_address(),
    };
    let report = connect(&lab_config(), &responses);
    assert_eq!(
        report.outcome,
        ConnectOutcome::Failed(ConnectionError::AssociationRequestError)
    );
    assert_eq!(
        report.stages,
        vec![
            Action::ApplyConfiguration,
            Action::StartRadio,
            Action::RequestAssociation,
        ]
    );
}

#[test]
fn readiness_never_true_keeps_associating() {
    let report = connect(&lab_config(), &accepting_responses(vec![false, false, false]));
    assert_eq!(report.outcome, ConnectOutcome::StillAssociating);
    assert_eq!(report.polls_waited, 3);
    assert!(!report.stages.contains(&Action::AwaitNetworkUp));
    assert_eq!(
        report.stages,
        vec![
            Action::ApplyConfiguration,
            Action::StartRadio,
            Action::RequestAssociation,
            Action::PollReadiness,
            Action::PollReadiness,
            Action::PollReadiness,
        ]
    );
}

#[test]
fn empty_readiness_script_still_associating() {
    let report = connect(&lab_config(), &accepting_responses(vec![]));
    assert_eq!(report.outcome, ConnectOutcome::StillAssociating);
    assert_eq!(report.polls_waited, 0);
    assert_eq!(
        report.stages,
        vec![
            Action::ApplyConfiguration,
            Action::StartRadio,
            Action::RequestAssociation,
        ]
    );
}

#[test]
fn step_machine_walks_stages_in_order() {
    let mut connector = StationConnector::new(lab_config());
    assert_eq!(connector.state, ConnectionState::Unconfigured);
    assert_eq!(connector.next_action(), Action::ApplyConfiguration);

    assert!(connector.handle_event(Event::ConfigurationApplied).is_ok());
    assert_eq!(connector.state, ConnectionState::Configured);
    assert_eq!(connector.next_action(), Action::StartRadio);

    assert!(connector.handle_event(Event::RadioStarted).is_ok());
    assert_eq!(connector.state, ConnectionState::Started);
    assert_eq!(connector.next_action(), Action::RequestAssociation);

    assert!(connector.handle_event(Event::AssociationRequested).is_ok());
    assert_eq!(connector.state, ConnectionState::Associating);
    assert_eq!(connector.next_action(), Action::PollReadiness);

    assert!(connector.handle_event(Event::Readiness(false)).is_ok());
    assert_eq!(connector.state, ConnectionState::Associating);

    assert!(connector.handle_event(Event::Readiness(true)).is_ok());
    assert_eq!(connector.state, ConnectionState::LinkUp);
    assert_eq!(connector.next_action(), Action::AwaitNetworkUp);

    assert!(connector.handle_event(Event::NetworkUp).is_ok());
    assert_eq!(connector.state, ConnectionState::Ready);
    assert_eq!(connector.next_action(), Action::Done);
}

#[test]
fn rejected_configuration_leaves_connector_unchanged() {
    let mut connector = StationConnector::new(lab_config());
    let result = connector.handle_event(Event::ConfigurationRejected);
    assert_eq!(result, Err(ConnectionError::ConfigurationError));
    assert_eq!(connector.state, ConnectionState::Unconfigured);
}

#[test]
fn failed_radio_start_reports_start_error() {
    let mut connector = StationConnector::new(lab_config());
    assert!(connector.handle_event(Event::ConfigurationApplied).is_ok());
    let result = connector.handle_event(Event::RadioStartFailed);
    assert_eq!(result, Err(ConnectionError::StartError));
    assert_eq!(connector.state, ConnectionState::Configured);
}

#[test]
fn failed_association_request_reports_association_error() {
    let mut connector = StationConnector::new(lab_config());
    assert!(connector.handle_event(Event::ConfigurationApplied).is_ok());
    assert!(connector.handle_event(Event::RadioStarted).is_ok());
    let result = connector.handle_event(Event::AssociationRequestFailed);
    assert_eq!(result, Err(ConnectionError::AssociationRequestError));
    assert_eq!(connector.state, ConnectionState::Started);
}

#[test]
fn default_config_is_empty() {
    let config = Config::default();
    assert_eq!(config.wifi_ssid, "");
    assert_eq!(config.wifi_psk, "");
}

#[test]
fn success_statuses_classify_as_ok() {
    assert_eq!(classify_status(200), Ok(()));
    assert_eq!(classify_status(204), Ok(()));
    assert_eq!(classify_status(299), Ok(()));
}

#[test]
fn non_success_statuses_are_returned_as_errors() {
    assert_eq!(classify_status(199), Err(199));
    assert_eq!(classify_status(300), Err(300));
    assert_eq!(classify_status(404), Err(404));
    assert_eq!(classify_status(500), Err(500));
}
