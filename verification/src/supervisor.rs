//! The connectivity supervisor: the order in which the radio is started,
//! connected, watched and brought back after a loss.
//!
//! The supervisor runs for ever. Like the server loop it is driven from
//! outside: it hands out one [`RadioAction`] and is told what came of it.

use vstd::prelude::*;

verus! {

/// The seconds to wait after the link was lost or could not be made.
pub const COOL_DOWN_SECONDS: u64 = 5;

/// What the supervisor waits for.
#[derive(Clone, Copy, Debug, PartialEq, Eq, Structural)]
pub enum RadioStage {
    /// Waits to hear whether the radio is connected.
    Probing,
    /// The radio is connected; waits for the link to be lost.
    Monitoring,
    /// The link was lost; waits for the cool-down to pass.
    Recovering,
    /// Waits to hear whether the radio is started.
    Checking,
    /// Waits for the radio to take the configuration.
    Configuring,
    /// Waits for the radio to start.
    Starting,
    /// Waits for the radio to connect.
    Connecting,
    /// The radio could not connect; waits for the cool-down to pass.
    BackingOff,
}

/// What the supervisor is told.
#[derive(Clone, Copy, Debug, PartialEq, Eq, Structural)]
pub enum RadioEvent {
    /// Whether the radio is connected.
    Connected(bool),
    /// The link was lost.
    Disconnected,
    /// The cool-down has passed.
    Woke,
    /// Whether the radio is started.
    Started(bool),
    /// Whether the radio took the configuration.
    Configured(bool),
    /// Whether the radio started.
    StartFinished(bool),
    /// Whether the radio connected.
    ConnectFinished(bool),
}

/// What is to be done with the radio next.
#[derive(Clone, Debug, PartialEq, Eq)]
pub enum RadioAction {
    /// Ask whether the radio is connected.
    QueryConnected,
    /// Wait until the link is lost.
    AwaitDisconnect,
    /// Wait for so many seconds.
    Sleep { seconds: u64 },
    /// Ask whether the radio is started.
    QueryStarted,
    /// Configure the radio as a client of this network.
    Configure { ssid: String, passphrase: String },
    /// Start the radio.
    Start,
    /// Connect to the network.
    Connect,
}

/// The state of the uplink.
#[derive(Clone, Copy, Debug, PartialEq, Eq, Structural)]
pub enum ConnectivityState {
    /// Nothing is under way.
    Idle,
    /// The radio is being configured, started or connected.
    Starting,
    /// The link is up.
    Connected,
    /// The link was lost and the cool-down has not passed.
    Disconnected,
}

impl RadioStage {
    /// The stage that follows once `event` has arrived. A connected radio is
    /// left alone until it loses the link. A radio that is not started is
    /// configured and started, and where either fails the supervisor starts
    /// over at once. A started radio is connected, and where that fails the
    /// supervisor starts over after the cool-down. An event that the stage
    /// does not wait for changes nothing.
    pub open spec fn after(self, event: RadioEvent) -> RadioStage {
        match (self, event) {
            (RadioStage::Probing, RadioEvent::Connected(true)) => RadioStage::Monitoring,
            (RadioStage::Probing, RadioEvent::Connected(false)) => RadioStage::Checking,
            (RadioStage::Monitoring, RadioEvent::Disconnected) => RadioStage::Recovering,
            (RadioStage::Recovering, RadioEvent::Woke) => RadioStage::Checking,
            (RadioStage::Checking, RadioEvent::Started(true)) => RadioStage::Connecting,
            (RadioStage::Checking, RadioEvent::Started(false)) => RadioStage::Configuring,
            (RadioStage::Configuring, RadioEvent::Configured(true)) => RadioStage::Starting,
            (RadioStage::Configuring, RadioEvent::Configured(false)) => RadioStage::Probing,
            (RadioStage::Starting, RadioEvent::StartFinished(true)) => RadioStage::Connecting,
            (RadioStage::Starting, RadioEvent::StartFinished(false)) => RadioStage::Probing,
            (RadioStage::Connecting, RadioEvent::ConnectFinished(true)) => RadioStage::Probing,
            (RadioStage::Connecting, RadioEvent::ConnectFinished(false)) => RadioStage::BackingOff,
            (RadioStage::BackingOff, RadioEvent::Woke) => RadioStage::Probing,
            _ => self,
        }
    }

    /// The state of the uplink in this stage.
    pub open spec fn connectivity(self) -> ConnectivityState {
        match self {
            RadioStage::Monitoring => ConnectivityState::Connected,
            RadioStage::Recovering => ConnectivityState::Disconnected,
            RadioStage::Configuring | RadioStage::Starting | RadioStage::Connecting =>
                ConnectivityState::Starting,
            _ => ConnectivityState::Idle,
        }
    }
}

/// The connectivity supervisor.
#[derive(Debug)]
pub struct Supervisor {
    ssid: String,
    passphrase: String,
    stage: RadioStage,
}

impl Supervisor {
    /// The name of the network.
    pub closed spec fn ssid(&self) -> Seq<char> {
        self.ssid@
    }

    /// The passphrase of the network.
    pub closed spec fn passphrase(&self) -> Seq<char> {
        self.passphrase@
    }

    /// What the supervisor waits for.
    pub closed spec fn stage(&self) -> RadioStage {
        self.stage
    }

    /// Whether `action` is the one whose outcome the supervisor waits for.
    pub open spec fn awaits(&self, action: RadioAction) -> bool {
        match self.stage() {
            RadioStage::Probing => action == RadioAction::QueryConnected,
            RadioStage::Monitoring => action == RadioAction::AwaitDisconnect,
            RadioStage::Recovering => action == RadioAction::Sleep { seconds: COOL_DOWN_SECONDS },
            RadioStage::Checking => action == RadioAction::QueryStarted,
            RadioStage::Configuring => {
                &&& action matches RadioAction::Configure { ssid, passphrase }
                &&& ssid@ == self.ssid()
                &&& passphrase@ == self.passphrase()
            },
            RadioStage::Starting => action == RadioAction::Start,
            RadioStage::Connecting => action == RadioAction::Connect,
            RadioStage::BackingOff => action == RadioAction::Sleep { seconds: COOL_DOWN_SECONDS },
        }
    }

    /// A supervisor for this network, and the first thing to do: to ask
    /// whether the radio is connected already.
    pub fn new(ssid: String, passphrase: String) -> (start: (Supervisor, RadioAction))
        ensures
            start.0.ssid() == ssid@,
            start.0.passphrase() == passphrase@,
            start.0.stage() == RadioStage::Probing,
            start.1 == RadioAction::QueryConnected,
    {
        (Supervisor { ssid, passphrase, stage: RadioStage::Probing }, RadioAction::QueryConnected)
    }

    /// What the supervisor waits for.
    pub fn current_stage(&self) -> (stage: RadioStage)
        ensures
            stage == self.stage(),
    {
        self.stage
    }

    /// The state of the uplink.
    pub fn state(&self) -> (state: ConnectivityState)
        ensures
            state == self.stage().connectivity(),
    {
        match self.stage {
            RadioStage::Monitoring => ConnectivityState::Connected,
            RadioStage::Recovering => ConnectivityState::Disconnected,
            RadioStage::Configuring => ConnectivityState::Starting,
            RadioStage::Starting => ConnectivityState::Starting,
            RadioStage::Connecting => ConnectivityState::Starting,
            _ => ConnectivityState::Idle,
        }
    }

    /// The action whose outcome the supervisor waits for.
    pub fn outstanding(&self) -> (action: RadioAction)
        ensures
            self.awaits(action),
    {
        match self.stage {
            RadioStage::Probing => RadioAction::QueryConnected,
            RadioStage::Monitoring => RadioAction::AwaitDisconnect,
            RadioStage::Recovering => RadioAction::Sleep { seconds: COOL_DOWN_SECONDS },
            RadioStage::Checking => RadioAction::QueryStarted,
            RadioStage::Configuring => RadioAction::Configure {
                ssid: self.ssid.clone(),
                passphrase: self.passphrase.clone(),
            },
            RadioStage::Starting => RadioAction::Start,
            RadioStage::Connecting => RadioAction::Connect,
            RadioStage::BackingOff => RadioAction::Sleep { seconds: COOL_DOWN_SECONDS },
        }
    }
}

/// One step of the supervisor: takes what came of the outstanding action and
/// hands out the next one. The network that the supervisor is for does not
/// change.
pub fn wifi_task(supervisor: &mut Supervisor, event: RadioEvent) -> (action: RadioAction)
    ensures
        final(supervisor).stage() == old(supervisor).stage().after(event),
        final(supervisor).ssid() == old(supervisor).ssid(),
        final(supervisor).passphrase() == old(supervisor).passphrase(),
        final(supervisor).awaits(action),
{
    let next = match (supervisor.stage, event) {
        (RadioStage::Probing, RadioEvent::Connected(true)) => RadioStage::Monitoring,
        (RadioStage::Probing, RadioEvent::Connected(false)) => RadioStage::Checking,
        (RadioStage::Monitoring, RadioEvent::Disconnected) => RadioStage::Recovering,
        (RadioStage::Recovering, RadioEvent::Woke) => RadioStage::Checking,
        (RadioStage::Checking, RadioEvent::Started(true)) => RadioStage::Connecting,
        (RadioStage::Checking, RadioEvent::Started(false)) => RadioStage::Configuring,
        (RadioStage::Configuring, RadioEvent::Configured(true)) => RadioStage::Starting,
        (RadioStage::Configuring, RadioEvent::Configured(false)) => RadioStage::Probing,
        (RadioStage::Starting, RadioEvent::StartFinished(true)) => RadioStage::Connecting,
        (RadioStage::Starting, RadioEvent::StartFinished(false)) => RadioStage::Probing,
        (RadioStage::Connecting, RadioEvent::ConnectFinished(true)) => RadioStage::Probing,
        (RadioStage::Connecting, RadioEvent::ConnectFinished(false)) => RadioStage::BackingOff,
        (RadioStage::BackingOff, RadioEvent::Woke) => RadioStage::Probing,
        (stage, _) => stage,
    };
    supervisor.stage = next;
    supervisor.outstanding()
}

/// The radio is never asked to connect before it is started, nor to start
/// before it is configured: the supervisor comes to wait for a connection
/// only from a radio that reported itself started or that has just started,
/// and to wait for a start only from a radio that has just taken its
/// configuration.
pub proof fn lemma_radio_brought_up_in_order(stage: RadioStage, event: RadioEvent)
    ensures
        stage.after(event) is Connecting && !(stage is Connecting) ==> (stage is Checking && event
            == RadioEvent::Started(true)) || (stage is Starting && event
            == RadioEvent::StartFinished(true)),
        stage.after(event) is Starting && !(stage is Starting) ==> stage is Configuring && event
            == RadioEvent::Configured(true),
        stage.after(event) is Configuring && !(stage is Configuring) ==> stage is Checking
            && event == RadioEvent::Started(false),
{
}

/// A lost link and a failed connection are each followed by the cool-down,
/// and by nothing else: the supervisor leaves the watch over a connected
/// radio only for the cool-down, and a failed connection leads nowhere else.
pub proof fn lemma_cool_down_after_loss(stage: RadioStage, event: RadioEvent)
    ensures
        stage is Monitoring ==> stage.after(event) is Monitoring || stage.after(event)
            is Recovering,
        stage is Connecting && event == RadioEvent::ConnectFinished(false) ==> stage.after(event)
            is BackingOff,
        stage.after(event) is Recovering && !(stage is Recovering) ==> stage is Monitoring
            && event is Disconnected,
{
}

} // verus!
