use uart_bridge::supervisor::{
    wifi_task, ConnectivityState, RadioAction, RadioEvent, RadioStage, Supervisor,
    COOL_DOWN_SECONDS,
};

fn fresh() -> Supervisor {
    let (supervisor, action) = Supervisor::new("home".to_string(), "secret".to_string());
    assert_eq!(action, RadioAction::QueryConnected);
    supervisor
}

fn configure() -> RadioAction {
    RadioAction::Configure { ssid: "home".to_string(), passphrase: "secret".to_string() }
}

fn run(events: &[RadioEvent]) -> (Supervisor, Vec<RadioAction>) {
    let mut supervisor = fresh();
    let mut actions = Vec::new();
    for event in events {
        actions.push(wifi_task(&mut supervisor, *event));
    }
    (supervisor, actions)
}

#[test]
fn cool_down_is_five_seconds() {
    assert_eq!(COOL_DOWN_SECONDS, 5);
}

#[test]
fn supervisor_starts_by_probing() {
    let supervisor = fresh();
    assert_eq!(supervisor.current_stage(), RadioStage::Probing);
    assert_eq!(supervisor.state(), ConnectivityState::Idle);
    assert_eq!(supervisor.outstanding(), RadioAction::QueryConnected);
}

#[test]
fn cold_start_configures_starts_and_connects() {
    let (supervisor, actions) = run(&[
        RadioEvent::Connected(false),
        RadioEvent::Started(false),
        RadioEvent::Configured(true),
        RadioEvent::StartFinished(true),
        RadioEvent::ConnectFinished(true),
        RadioEvent::Connected(true),
    ]);
    assert_eq!(
        actions,
        vec![
            RadioAction::QueryStarted,
            configure(),
            RadioAction::Start,
            RadioAction::Connect,
            RadioAction::QueryConnected,
            RadioAction::AwaitDisconnect,
        ]
    );
    assert_eq!(supervisor.current_stage(), RadioStage::Monitoring);
    assert_eq!(supervisor.state(), ConnectivityState::Connected);
}

#[test]
fn connected_radio_is_left_alone() {
    let (supervisor, actions) = run(&[RadioEvent::Connected(true)]);
    assert_eq!(actions, vec![RadioAction::AwaitDisconnect]);
    assert_eq!(supervisor.state(), ConnectivityState::Connected);
}

#[test]
fn lost_link_cools_down_then_reconnects() {
    let (supervisor, actions) = run(&[
        RadioEvent::Connected(true),
        RadioEvent::Disconnected,
        RadioEvent::Woke,
        RadioEvent::Started(true),
    ]);
    assert_eq!(
        actions,
        vec![
            RadioAction::AwaitDisconnect,
            RadioAction::Sleep { seconds: 5 },
            RadioAction::QueryStarted,
            RadioAction::Connect,
        ]
    );
    assert_eq!(supervisor.current_stage(), RadioStage::Connecting);
    assert_eq!(supervisor.state(), ConnectivityState::Starting);
}

#[test]
fn lost_link_is_disconnected_during_cool_down() {
    let (supervisor, _) = run(&[RadioEvent::Connected(true), RadioEvent::Disconnected]);
    assert_eq!(supervisor.current_stage(), RadioStage::Recovering);
    assert_eq!(supervisor.state(), ConnectivityState::Disconnected);
}

#[test]
fn failed_connect_cools_down_then_starts_over() {
    let (supervisor, actions) = run(&[
        RadioEvent::Connected(false),
        RadioEvent::Started(true),
        RadioEvent::ConnectFinished(false),
        RadioEvent::Woke,
    ]);
    assert_eq!(
        actions,
        vec![
            RadioAction::QueryStarted,
            RadioAction::Connect,
            RadioAction::Sleep { seconds: 5 },
            RadioAction::QueryConnected,
        ]
    );
    assert_eq!(supervisor.current_stage(), RadioStage::Probing);
}

#[test]
fn failed_start_starts_over_at_once() {
    let (supervisor, actions) = run(&[
        RadioEvent::Connected(false),
        RadioEvent::Started(false),
        RadioEvent::Configured(true),
        RadioEvent::StartFinished(false),
    ]);
    assert_eq!(actions.last(), Some(&RadioAction::QueryConnected));
    assert_eq!(supervisor.current_stage(), RadioStage::Probing);
    let (supervisor, actions) = run(&[
        RadioEvent::Connected(false),
        RadioEvent::Started(false),
        RadioEvent::Configured(false),
    ]);
    assert_eq!(actions.last(), Some(&RadioAction::QueryConnected));
    assert_eq!(supervisor.current_stage(), RadioStage::Probing);
}

#[test]
fn event_out_of_turn_changes_nothing() {
    let (supervisor, actions) = run(&[
        RadioEvent::Woke,
        RadioEvent::Disconnected,
        RadioEvent::ConnectFinished(true),
        RadioEvent::Started(true),
    ]);
    assert_eq!(actions, vec![RadioAction::QueryConnected; 4]);
    assert_eq!(supervisor.current_stage(), RadioStage::Probing);
    let (supervisor, actions) = run(&[
        RadioEvent::Connected(false),
        RadioEvent::Started(false),
        RadioEvent::StartFinished(true),
    ]);
    assert_eq!(actions.last(), Some(&configure()));
    assert_eq!(supervisor.current_stage(), RadioStage::Configuring);
}
