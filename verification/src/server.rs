//! The server loop: when to wait for the link, when to bind, and what to do
//! with each datagram.
//!
//! The loop itself runs outside. It performs the [`Action`] that the server
//! hands out, reports what came of it as an [`Event`], and gets the next
//! action back.

use vstd::prelude::*;

use crate::codec::{decode, decoding_of, encode, encoded, request_from, uri_path};
use crate::controller::{Command, Completion, Controller, Phase, Progress, MAX_TRANSFER_UNIT};
use crate::handler::{handle_request, route, version_payload, Handling, Route, Transaction};
use crate::message::{
    fresh_response, response_view, Endpoint, Message, Method, ResponseView, Status,
};

verus! {

/// The seconds between two looks at a link that is down.
pub const LINK_POLL_SECONDS: u64 = 1;

/// Where the server loop stands. Each stage waits for the outcome of one
/// action.
#[derive(Debug, PartialEq, Eq)]
pub enum Stage {
    /// Waits to hear whether the link is up.
    Gating,
    /// Waits for the pause after a look at a link that was down.
    Waiting,
    /// Waits for the socket to be bound.
    Binding,
    /// Waits for a datagram.
    Listening,
    /// Waits for the serial line on behalf of the request from `source`.
    Busy { transaction: Transaction, source: Endpoint },
    /// The socket could not be bound. Nothing goes on.
    Halted,
}

/// What the loop reports.
#[derive(Debug, PartialEq, Eq)]
pub enum Event {
    /// The link is up.
    LinkUp,
    /// The link is down.
    LinkDown,
    /// The pause is over.
    Woke,
    /// The socket is bound.
    Bound,
    /// The socket could not be bound.
    BindFailed,
    /// A datagram arrived.
    Datagram { bytes: Vec<u8>, source: Endpoint },
    /// The socket failed while waiting for a datagram.
    ReceiveFailed,
    /// The serial driver carried out a command.
    Serial(Completion),
}

/// What the loop is to do next.
#[derive(Debug, PartialEq, Eq)]
pub enum Action {
    /// Ask whether the link is up.
    PollLink,
    /// Pause for so many seconds.
    Sleep { seconds: u64 },
    /// Make a fresh socket and bind it to the port.
    Bind { port: u16 },
    /// Wait for the next datagram.
    Receive,
    /// Send the datagram to `to`, whether or not that succeeds, and then wait
    /// for the next datagram.
    Reply { datagram: Vec<u8>, to: Endpoint },
    /// Carry out the command on the serial line.
    Serial(Command),
    /// Give up: the device is misconfigured.
    Abort,
}

/// The server loop's state.
#[derive(Debug)]
pub struct Server {
    port: u16,
    stage: Stage,
    controller: Controller,
}

/// The action that answers a request: the encoded response goes back to
/// where the request came from; where there is no response, or the codec
/// refuses to encode it, nothing is sent and the next datagram is awaited.
pub open spec fn replies(response: Option<ResponseView>, to: Endpoint, action: Action) -> bool {
    match response {
        Some(r) => match encoded(r) {
            Some(bytes) => action matches Action::Reply { datagram, to: destination }
                && datagram@ == bytes && destination == to,
            None => action == Action::Receive,
        },
        None => action == Action::Receive,
    }
}

impl Server {
    /// The port that the server binds.
    pub closed spec fn port(&self) -> u16 {
        self.port
    }

    /// Where the loop stands.
    pub closed spec fn stage(&self) -> Stage {
        self.stage
    }

    /// The serial controller that the server owns.
    pub closed spec fn controller(&self) -> Controller {
        self.controller
    }

    /// The controller rests unless a request waits for the serial line, and
    /// a request that does can be answered.
    pub open spec fn wf(&self) -> bool {
        &&& self.controller().wf()
        &&& match self.stage() {
            Stage::Busy { transaction, .. } => {
                &&& transaction.fits(self.controller().phase())
                &&& transaction.response() matches Some(r) ==> r.wf()
            },
            _ => self.controller().is_idle(),
        }
    }

    /// The socket is bound: the server waits for a datagram or works on one.
    pub open spec fn is_serving(&self) -> bool {
        self.stage() is Listening || self.stage() is Busy
    }

    /// The action whose outcome the server waits for.
    pub open spec fn outstanding(&self) -> Action {
        match self.stage() {
            Stage::Gating => Action::PollLink,
            Stage::Waiting => Action::Sleep { seconds: LINK_POLL_SECONDS },
            Stage::Binding => Action::Bind { port: self.port() },
            Stage::Listening => Action::Receive,
            Stage::Busy { .. } => Action::Serial(self.controller().phase().awaited().unwrap()),
            Stage::Halted => Action::Abort,
        }
    }

    /// What the server does with whatever the codec made of a datagram from
    /// `source`. A datagram that did not decode changes nothing. A message is
    /// routed by its code, its path and the length of its payload: it is
    /// answered at once, or it starts a transfer on the serial line.
    pub open spec fn dispatched(
        self,
        decoded: Option<Message>,
        source: Endpoint,
        after: Server,
        action: Action,
    ) -> bool {
        &&& after.port() == self.port()
        &&& match decoded {
            None => after == self && action == Action::Receive,
            Some(message) => {
                let fresh = fresh_response(message.kind, message.message_id, message.token@);
                match route(
                    Method::of_code(message.code),
                    uri_path(message.uri_path.deep_view()),
                    message.payload@.len(),
                ) {
                    Route::Refuse(status) => {
                        &&& after == self
                        &&& replies(
                            match fresh {
                                Some(r) => Some(r.filled(status, Seq::empty())),
                                None => None,
                            },
                            source,
                            action,
                        )
                    },
                    Route::Version => {
                        &&& after == self
                        &&& replies(
                            match fresh {
                                Some(r) => Some(r.filled(Status::Content, version_payload())),
                                None => None,
                            },
                            source,
                            action,
                        )
                    },
                    Route::Read => {
                        &&& after.stage() matches Stage::Busy {
                            transaction: Transaction::Reading { response },
                            source: origin,
                        }
                        &&& response_view(response) == fresh
                        &&& origin == source
                        &&& after.controller().phase() == (Phase::Receiving {
                            capacity: MAX_TRANSFER_UNIT,
                        })
                        &&& action == Action::Serial(
                            Command::Receive { capacity: MAX_TRANSFER_UNIT },
                        )
                    },
                    Route::Write => {
                        &&& after.stage() matches Stage::Busy {
                            transaction: Transaction::Writing { payload, response },
                            source: origin,
                        }
                        &&& payload@ == message.payload@
                        &&& response_view(response) == fresh
                        &&& origin == source
                        &&& after.controller().phase() == (Phase::Raising {
                            len: message.payload@.len() as usize,
                        })
                        &&& action == Action::Serial(Command::RaiseEnable)
                    },
                }
            },
        }
    }

    /// What the server does with a completion from the serial driver while a
    /// request waits for the line: the transfer goes on, or it is over and
    /// the request is answered.
    pub open spec fn continued(
        self,
        transaction: Transaction,
        source: Endpoint,
        completion: Completion,
        after: Server,
        action: Action,
    ) -> bool {
        &&& after.port() == self.port()
        &&& match self.controller().phase().answer(completion) {
            Progress::Rejected => after == self && action == self.outstanding(),
            Progress::Pending(command) => {
                &&& after.stage() == self.stage()
                &&& after.controller().phase() == self.controller().phase().after(completion)
                &&& action == Action::Serial(command)
            },
            Progress::Finished(transferred) => {
                &&& after.stage() == Stage::Listening
                &&& replies(transaction.outcome(completion, transferred), source, action)
            },
        }
    }

    /// The step of the server loop: what follows from `event` in the stage
    /// that the server is in. An event that does not answer the outstanding
    /// action changes nothing, and the outstanding action is handed out
    /// again.
    pub open spec fn served(self, event: Event, after: Server, action: Action) -> bool {
        match (self.stage(), event) {
            (Stage::Gating, Event::LinkUp) => {
                &&& after.stage() == Stage::Binding
                &&& after.port() == self.port()
                &&& action == Action::Bind { port: self.port() }
            },
            (Stage::Gating, Event::LinkDown) => {
                &&& after.stage() == Stage::Waiting
                &&& after.port() == self.port()
                &&& action == Action::Sleep { seconds: LINK_POLL_SECONDS }
            },
            (Stage::Waiting, Event::Woke) => {
                &&& after.stage() == Stage::Gating
                &&& after.port() == self.port()
                &&& action == Action::PollLink
            },
            (Stage::Binding, Event::Bound) => {
                &&& after.stage() == Stage::Listening
                &&& after.port() == self.port()
                &&& action == Action::Receive
            },
            (Stage::Binding, Event::BindFailed) => {
                &&& after.stage() == Stage::Halted
                &&& after.port() == self.port()
                &&& action == Action::Abort
            },
            (Stage::Listening, Event::ReceiveFailed) => {
                &&& after.stage() == Stage::Gating
                &&& after.port() == self.port()
                &&& action == Action::PollLink
            },
            (Stage::Listening, Event::Datagram { bytes, source }) => exists|
                decoded: Option<Message>,
            |
                decoding_of(bytes@, decoded) && #[trigger] self.dispatched(
                    decoded,
                    source,
                    after,
                    action,
                ),
            (Stage::Busy { transaction, source }, Event::Serial(completion)) => self.continued(
                transaction,
                source,
                completion,
                after,
                action,
            ),
            _ => after == self && action == self.outstanding(),
        }
    }

    /// A server for `port`, and the first thing to do: to ask for the link.
    pub fn new(port: u16) -> (start: (Server, Action))
        ensures
            start.0.wf(),
            start.0.port() == port,
            start.0.stage() == Stage::Gating,
            start.0.controller().is_idle(),
            !start.0.controller().tx_enable(),
            start.1 == Action::PollLink,
    {
        (Server { port, stage: Stage::Gating, controller: Controller::new() }, Action::PollLink)
    }

    /// The bytes that `Action::Serial(Command::Transmit)` sends: the payload
    /// of the write that waits for the line, and nothing otherwise.
    pub fn outgoing(&self) -> (bytes: &[u8])
        ensures
            bytes@ == match self.stage() {
                Stage::Busy { transaction: Transaction::Writing { payload, .. }, .. } => payload@,
                _ => Seq::empty(),
            },
    {
        match &self.stage {
            Stage::Busy { transaction, .. } => transaction.outgoing(),
            _ => &[],
        }
    }

    /// Where the loop stands.
    pub fn current_stage(&self) -> (stage: &Stage)
        ensures
            *stage == self.stage(),
    {
        &self.stage
    }

    /// The port that the server binds.
    pub fn listen_port(&self) -> (port: u16)
        ensures
            port == self.port(),
    {
        self.port
    }

    /// The serial controller that the server owns.
    pub fn serial(&self) -> (controller: &Controller)
        ensures
            *controller == self.controller(),
    {
        &self.controller
    }

    /// Whether the socket is bound.
    pub fn serving(&self) -> (bound: bool)
        ensures
            bound == self.is_serving(),
    {
        match &self.stage {
            Stage::Listening => true,
            Stage::Busy { .. } => true,
            _ => false,
        }
    }

    /// Goes on with what the router made of a request from `source`.
    fn settle(port: u16, controller: Controller, handling: Handling, source: Endpoint) -> (next: (
        Server,
        Action,
    ))
        requires
            controller.wf(),
            match handling {
                Handling::Done(response) => {
                    &&& controller.is_idle()
                    &&& response matches Some(r) ==> r.wf()
                },
                Handling::Pending(transaction, _) => {
                    &&& transaction.fits(controller.phase())
                    &&& transaction.response() matches Some(r) ==> r.wf()
                },
            },
        ensures
            next.0.wf(),
            next.0.port() == port,
            next.0.controller() == controller,
            match handling {
                Handling::Done(response) => {
                    &&& next.0.stage() == Stage::Listening
                    &&& replies(response_view(response), source, next.1)
                },
                Handling::Pending(transaction, command) => {
                    &&& next.0.stage() == Stage::Busy { transaction, source }
                    &&& next.1 == Action::Serial(command)
                },
            },
    {
        match handling {
            Handling::Done(None) => (
                Server { port, stage: Stage::Listening, controller },
                Action::Receive,
            ),
            Handling::Done(Some(response)) => {
                let action = match encode(&response) {
                    Some(datagram) => Action::Reply { datagram, to: source },
                    None => Action::Receive,
                };
                (Server { port, stage: Stage::Listening, controller }, action)
            },
            Handling::Pending(transaction, command) => (
                Server { port, stage: Stage::Busy { transaction, source }, controller },
                Action::Serial(command),
            ),
        }
    }

    /// Deals with whatever the codec made of a datagram from `source`.
    pub fn dispatch(self, decoded: Option<Message>, source: Endpoint) -> (next: (Server, Action))
        requires
            self.wf(),
            self.stage() is Listening,
            decoded matches Some(message) ==> message.wf(),
        ensures
            next.0.wf(),
            self.dispatched(decoded, source, next.0, next.1),
    {
        match decoded {
            None => (self, Action::Receive),
            Some(message) => {
                let Server { port, stage: _, controller } = self;
                let mut controller = controller;
                let request = request_from(message, source);
                let handling = handle_request(request, &mut controller);
                Server::settle(port, controller, handling, source)
            },
        }
    }
}

/// One step of the server loop.
pub fn server_task(server: Server, event: Event) -> (next: (Server, Action))
    requires
        server.wf(),
    ensures
        next.0.wf(),
        server.served(event, next.0, next.1),
{
    let Server { port, stage, controller } = server;
    match (stage, event) {
        (Stage::Gating, Event::LinkUp) => (
            Server { port, stage: Stage::Binding, controller },
            Action::Bind { port },
        ),
        (Stage::Gating, Event::LinkDown) => (
            Server { port, stage: Stage::Waiting, controller },
            Action::Sleep { seconds: LINK_POLL_SECONDS },
        ),
        (Stage::Waiting, Event::Woke) => (
            Server { port, stage: Stage::Gating, controller },
            Action::PollLink,
        ),
        (Stage::Binding, Event::Bound) => (
            Server { port, stage: Stage::Listening, controller },
            Action::Receive,
        ),
        (Stage::Binding, Event::BindFailed) => (
            Server { port, stage: Stage::Halted, controller },
            Action::Abort,
        ),
        (Stage::Listening, Event::ReceiveFailed) => (
            Server { port, stage: Stage::Gating, controller },
            Action::PollLink,
        ),
        (Stage::Listening, Event::Datagram { bytes, source }) => {
            let decoded = decode(bytes.as_slice());
            let ghost witness = decoded;
            let listening = Server { port, stage: Stage::Listening, controller };
            let next = listening.dispatch(decoded, source);
            proof {
                assert(decoding_of(bytes@, witness));
                assert(server.dispatched(witness, source, next.0, next.1));
            }
            next
        },
        (Stage::Busy { transaction, source }, Event::Serial(completion)) => {
            let mut controller = controller;
            let handling = transaction.resume(&mut controller, completion);
            Server::settle(port, controller, handling, source)
        },
        (stage, _) => {
            let action = match &stage {
                Stage::Gating => Action::PollLink,
                Stage::Waiting => Action::Sleep { seconds: LINK_POLL_SECONDS },
                Stage::Binding => Action::Bind { port },
                Stage::Listening => Action::Receive,
                Stage::Busy { .. } => Action::Serial(controller.outstanding().unwrap()),
                Stage::Halted => Action::Abort,
            };
            (Server { port, stage, controller }, action)
        },
    }
}

/// A datagram that the codec refuses is dropped: the server stays as it was,
/// sends nothing, and waits for the next datagram on the socket it has.
pub proof fn lemma_malformed_datagram_dropped(
    server: Server,
    source: Endpoint,
    after: Server,
    action: Action,
)
    requires
        server.dispatched(None, source, after, action),
    ensures
        after == server,
        action == Action::Receive,
{
}

/// A datagram of fewer than four bytes is always dropped.
pub proof fn lemma_short_datagram_dropped(
    server: Server,
    bytes: Vec<u8>,
    source: Endpoint,
    after: Server,
    action: Action,
)
    requires
        server.stage() is Listening,
        bytes@.len() < 4,
        server.served(Event::Datagram { bytes, source }, after, action),
    ensures
        after == server,
        action == Action::Receive,
{
}

/// No datagram, whatever it holds, costs the server its socket: after it the
/// server waits for the next datagram or for the serial line, on the same
/// port, and what it hands out is a wait for a datagram, an answer, or a
/// command for the serial line.
pub proof fn lemma_datagram_keeps_socket(
    server: Server,
    bytes: Vec<u8>,
    source: Endpoint,
    after: Server,
    action: Action,
)
    requires
        server.stage() is Listening,
        server.served(Event::Datagram { bytes, source }, after, action),
    ensures
        after.is_serving(),
        after.port() == server.port(),
        action is Receive || action is Reply || action is Serial,
{
}

/// A socket is bound only once the link is reported up: unless a bind is
/// outstanding already, the server asks for one only in answer to that
/// report.
pub proof fn lemma_bind_waits_for_link(server: Server, event: Event, after: Server, action: Action)
    requires
        !(server.stage() is Binding),
        server.served(event, after, action),
        action is Bind,
    ensures
        server.stage() is Gating,
        event is LinkUp,
        action == (Action::Bind { port: server.port() }),
{
}

/// While the link is reported down the server only pauses and asks again:
/// a look at a link that is down is followed by a pause of
/// [`LINK_POLL_SECONDS`], and the pause by another look.
pub proof fn lemma_link_down_polls(server: Server, after: Server, action: Action)
    requires
        server.stage() is Gating,
        server.served(Event::LinkDown, after, action),
    ensures
        action == (Action::Sleep { seconds: LINK_POLL_SECONDS }),
        forall|next: Server, then: Action| #[trigger]
            after.served(Event::Woke, next, then) ==> then == Action::PollLink && next.stage()
                == Stage::Gating,
{
}

/// A message that asks to write more than [`MAX_TRANSFER_UNIT`] bytes never
/// reaches the serial line: the server hands out no command for the line,
/// stays as it was, and answers 4.00 where the message is answered at all.
pub proof fn lemma_oversized_write_stays_off_the_line(
    server: Server,
    message: Message,
    source: Endpoint,
    after: Server,
    action: Action,
)
    requires
        Method::of_code(message.code) == Method::Post,
        uri_path(message.uri_path.deep_view()) == "uart"@,
        message.payload@.len() > MAX_TRANSFER_UNIT,
        server.dispatched(Some(message), source, after, action),
    ensures
        after == server,
        !(action is Serial),
        replies(
            match fresh_response(message.kind, message.message_id, message.token@) {
                Some(r) => Some(r.filled(Status::BadRequest, Seq::empty())),
                None => None,
            },
            source,
            action,
        ),
{
}

} // verus!
