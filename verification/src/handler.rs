//! The request router: which request reads from the serial line, which one
//! writes to it, and what is answered.
//!
//! The router decides; it does not wait. A request that needs the serial line
//! becomes a [`Transaction`], which is resumed with each completion that the
//! driver reports until the answer is there.

use vstd::prelude::*;
use vstd::string::StringSliceAdditionalSpecFns;
use vstd::utf8::encode_utf8_decode_utf8;

use crate::controller::{
    Command, Completion, Controller, Error, Phase, Progress, MAX_TRANSFER_UNIT,
};
use crate::message::{response_view, Method, Request, Response, ResponseView, Status};

verus! {

/// The version that `GET /version` answers with.
pub const VERSION: &'static str = "0.1.0";

/// The payload of the answer to `GET /version`: the version, in UTF-8.
pub open spec fn version_payload() -> Seq<u8> {
    VERSION.spec_bytes()
}

/// What the router does with a request.
pub enum Route {
    /// Read from the serial line and answer with the bytes.
    Read,
    /// Answer with the version.
    Version,
    /// Write the payload to the serial line.
    Write,
    /// Answer with this status, and touch nothing.
    Refuse(Status),
}

/// The dispatch table. A method other than GET and POST is refused whatever
/// the path; a path other than `uart` and, for GET, `version` is not found; a
/// payload of more than [`MAX_TRANSFER_UNIT`] bytes is not written.
pub open spec fn route(method: Method, path: Seq<char>, payload_len: nat) -> Route {
    match method {
        Method::Get => if path == "uart"@ {
            Route::Read
        } else if path == "version"@ {
            Route::Version
        } else {
            Route::Refuse(Status::NotFound)
        },
        Method::Post => if path == "uart"@ {
            if payload_len > MAX_TRANSFER_UNIT {
                Route::Refuse(Status::BadRequest)
            } else {
                Route::Write
            }
        } else {
            Route::Refuse(Status::NotFound)
        },
        Method::Other => Route::Refuse(Status::MethodNotAllowed),
    }
}

/// A request that waits for the serial line.
#[derive(Debug, PartialEq, Eq)]
pub enum Transaction {
    /// `GET /uart`: the bytes read become the payload of the answer.
    Reading { response: Option<Response> },
    /// `POST /uart`: `payload` is what goes to the line.
    Writing { payload: Vec<u8>, response: Option<Response> },
}

/// How far the router got with a request.
#[derive(Debug, PartialEq, Eq)]
pub enum Handling {
    /// The request is dealt with. `None` means that nothing is sent back.
    Done(Option<Response>),
    /// The request waits for the driver to carry out the command.
    Pending(Transaction, Command),
}

/// The response with its status and payload filled in, if there is one to
/// fill in.
pub open spec fn answered(response: Option<Response>, status: Status, payload: Seq<u8>) -> Option<
    ResponseView,
> {
    match response {
        Some(r) => Some(r@.filled(status, payload)),
        None => None,
    }
}

/// What the router owes for each entry of the dispatch table: the answer, or
/// the transaction and the first command of it, and the state in which it
/// leaves the controller.
pub open spec fn routed(
    route: Route,
    request: Request,
    before: Controller,
    handling: Handling,
    after: Controller,
) -> bool {
    match route {
        Route::Refuse(status) => {
            &&& handling matches Handling::Done(response)
            &&& response_view(response) == answered(request.response, status, Seq::empty())
            &&& after == before
        },
        Route::Version => {
            &&& handling matches Handling::Done(response)
            &&& response_view(response) == answered(
                request.response,
                Status::Content,
                version_payload(),
            )
            &&& after == before
        },
        Route::Read => {
            &&& handling == Handling::Pending(
                Transaction::Reading { response: request.response },
                Command::Receive { capacity: MAX_TRANSFER_UNIT },
            )
            &&& after.phase() == (Phase::Receiving { capacity: MAX_TRANSFER_UNIT })
            &&& after.tx_enable() == before.tx_enable()
        },
        Route::Write => {
            &&& handling == Handling::Pending(
                Transaction::Writing { payload: request.payload, response: request.response },
                Command::RaiseEnable,
            )
            &&& after.phase() == (Phase::Raising { len: request.payload@.len() as usize })
            &&& !after.tx_enable()
        },
    }
}

/// Whether two texts are the same.
fn same_text(left: &str, right: &str) -> (same: bool)
    ensures
        same == (left@ == right@),
{
    let a = left.as_bytes();
    let b = right.as_bytes();
    proof {
        encode_utf8_decode_utf8(left@);
        encode_utf8_decode_utf8(right@);
    }
    if a.len() != b.len() {
        return false;
    }
    let mut i: usize = 0;
    while i < a.len()
        invariant
            i <= a.len(),
            a.len() == b.len(),
            forall|j: int| 0 <= j < i ==> a@[j] == b@[j],
            a@ == left.spec_bytes(),
            b@ == right.spec_bytes(),
            left@ == right@ ==> a@ == b@,
        decreases a.len() - i,
    {
        if a[i] != b[i] {
            return false;
        }
        i += 1;
    }
    assert(a@ =~= b@);
    true
}

/// Fills in the response, if there is one.
fn answer(response: Option<Response>, status: Status, payload: Vec<u8>) -> (filled: Option<
    Response,
>)
    ensures
        response_view(filled) == answered(response, status, payload@),
{
    match response {
        Some(r) => Some(r.fill(status, payload)),
        None => None,
    }
}

/// Routes a request. A request that needs the serial line starts a
/// transaction on the controller; every other request is answered at once
/// and leaves the controller alone.
pub fn handle_request(request: Request, controller: &mut Controller) -> (handling: Handling)
    requires
        old(controller).wf(),
        old(controller).is_idle(),
    ensures
        final(controller).wf(),
        routed(
            route(request.method, request.path@, request.payload@.len()),
            request,
            *old(controller),
            handling,
            *final(controller),
        ),
        handling matches Handling::Pending(transaction, _) ==> transaction.fits(
            final(controller).phase(),
        ),
{
    match request.method {
        Method::Get => {
            let path = request.path.clone();
            get(path.as_str(), request, controller)
        },
        Method::Post => {
            let path = request.path.clone();
            post(path.as_str(), request, controller)
        },
        Method::Other => Handling::Done(
            answer(request.response, Status::MethodNotAllowed, Vec::new()),
        ),
    }
}

/// Routes a GET request for `path`.
pub fn get(path: &str, request: Request, controller: &mut Controller) -> (handling: Handling)
    requires
        old(controller).wf(),
        old(controller).is_idle(),
    ensures
        final(controller).wf(),
        routed(
            route(Method::Get, path@, request.payload@.len()),
            request,
            *old(controller),
            handling,
            *final(controller),
        ),
{
    if same_text(path, "uart") {
        let command = controller.read(MAX_TRANSFER_UNIT);
        Handling::Pending(Transaction::Reading { response: request.response }, command)
    } else if same_text(path, "version") {
        let payload = vstd::slice::slice_to_vec(VERSION.as_bytes());
        Handling::Done(answer(request.response, Status::Content, payload))
    } else {
        Handling::Done(answer(request.response, Status::NotFound, Vec::new()))
    }
}

/// Routes a POST request for `path`.
pub fn post(path: &str, request: Request, controller: &mut Controller) -> (handling: Handling)
    requires
        old(controller).wf(),
        old(controller).is_idle(),
    ensures
        final(controller).wf(),
        routed(
            route(Method::Post, path@, request.payload@.len()),
            request,
            *old(controller),
            handling,
            *final(controller),
        ),
{
    if same_text(path, "uart") {
        if request.payload.len() > MAX_TRANSFER_UNIT {
            Handling::Done(answer(request.response, Status::BadRequest, Vec::new()))
        } else {
            let command = controller.write(request.payload.len());
            Handling::Pending(
                Transaction::Writing { payload: request.payload, response: request.response },
                command,
            )
        }
    } else {
        Handling::Done(answer(request.response, Status::NotFound, Vec::new()))
    }
}

impl Transaction {
    /// The response that the transaction will fill in.
    pub open spec fn response(self) -> Option<Response> {
        match self {
            Transaction::Reading { response } => response,
            Transaction::Writing { response, .. } => response,
        }
    }

    /// The transaction and the phase of the controller belong together: a
    /// read waits for at most [`MAX_TRANSFER_UNIT`] bytes, a write is
    /// somewhere between the raising and the lowering of the line.
    pub open spec fn fits(self, phase: Phase) -> bool {
        match self {
            Transaction::Reading { .. } => phase == (Phase::Receiving {
                capacity: MAX_TRANSFER_UNIT,
            }),
            Transaction::Writing { .. } => phase is Raising || phase.drives_line(),
        }
    }

    /// The answer once the transfer is over. A read answers with the bytes
    /// received; a write answers with nothing; a failure of the serial port
    /// is answered as a fault of the bridge.
    pub open spec fn outcome(self, completion: Completion, transferred: Result<usize, Error>) -> Option<
        ResponseView,
    > {
        match (self, completion, transferred) {
            (Transaction::Reading { response }, Completion::Received(Ok(bytes)), Ok(_)) => answered(
                response,
                Status::Content,
                bytes@,
            ),
            (Transaction::Writing { response, .. }, _, Ok(_)) => answered(
                response,
                Status::Content,
                Seq::empty(),
            ),
            _ => answered(self.response(), Status::InternalServerError, Seq::empty()),
        }
    }

    /// What resuming owes, by what the controller answers to the completion.
    pub open spec fn resumed(
        self,
        completion: Completion,
        before: Controller,
        handling: Handling,
        after: Controller,
    ) -> bool {
        match before.phase().answer(completion) {
            Progress::Rejected => {
                &&& handling == Handling::Pending(self, before.phase().awaited().unwrap())
                &&& after == before
            },
            Progress::Pending(command) => {
                &&& handling == Handling::Pending(self, command)
                &&& after.phase() == before.phase().after(completion)
            },
            Progress::Finished(transferred) => {
                &&& handling matches Handling::Done(response)
                &&& response_view(response) == self.outcome(completion, transferred)
                &&& after.phase() == Phase::Idle
            },
        }
    }

    /// The bytes that a `Transmit` command sends: the payload of a write.
    pub fn outgoing(&self) -> (bytes: &[u8])
        ensures
            bytes@ == match *self {
                Transaction::Reading { .. } => Seq::empty(),
                Transaction::Writing { payload, .. } => payload@,
            },
    {
        match self {
            Transaction::Reading { .. } => &[],
            Transaction::Writing { payload, .. } => payload.as_slice(),
        }
    }

    /// Takes the completion of the outstanding command. The transaction goes
    /// on with the next command, or ends with the answer; a completion that
    /// the controller rejects changes nothing, and the outstanding command
    /// is handed out again.
    pub fn resume(self, controller: &mut Controller, completion: Completion) -> (handling:
        Handling)
        requires
            old(controller).wf(),
            self.fits(old(controller).phase()),
        ensures
            final(controller).wf(),
            self.resumed(completion, *old(controller), handling, *final(controller)),
            handling matches Handling::Pending(transaction, _) ==> transaction.fits(
                final(controller).phase(),
            ),
    {
        let awaited = controller.outstanding();
        match controller.complete(&completion) {
            Progress::Rejected => Handling::Pending(self, awaited.unwrap()),
            Progress::Pending(command) => Handling::Pending(self, command),
            Progress::Finished(transferred) => {
                let filled = match (self, completion, transferred) {
                    (
                        Transaction::Reading { response },
                        Completion::Received(Ok(bytes)),
                        Ok(_),
                    ) => answer(response, Status::Content, bytes),
                    (Transaction::Writing { response, .. }, _, Ok(_)) => answer(
                        response,
                        Status::Content,
                        Vec::new(),
                    ),
                    (Transaction::Reading { response }, _, _) => answer(
                        response,
                        Status::InternalServerError,
                        Vec::new(),
                    ),
                    (Transaction::Writing { response, .. }, _, _) => answer(
                        response,
                        Status::InternalServerError,
                        Vec::new(),
                    ),
                };
                Handling::Done(filled)
            },
        }
    }
}

/// A payload of more than [`MAX_TRANSFER_UNIT`] bytes never reaches the
/// serial line: the router answers `POST /uart` with 4.00 at once, hands out
/// no command, and leaves the controller as it was.
pub proof fn lemma_oversized_write_refused(
    request: Request,
    before: Controller,
    handling: Handling,
    after: Controller,
)
    requires
        request.method == Method::Post,
        request.path@ == "uart"@,
        request.payload@.len() > MAX_TRANSFER_UNIT,
        routed(
            route(request.method, request.path@, request.payload@.len()),
            request,
            before,
            handling,
            after,
        ),
    ensures
        handling matches Handling::Done(response) && response_view(response) == answered(
            request.response,
            Status::BadRequest,
            Seq::empty(),
        ),
        after == before,
{
}

/// What the dispatch table does not hold is refused, and the controller is
/// left as it was: a method other than GET and POST with 4.05, whatever the
/// path; a GET for a path other than `uart` and `version`, and a POST for a
/// path other than `uart`, with 4.04.
pub proof fn lemma_unrouted_request_refused(
    request: Request,
    before: Controller,
    handling: Handling,
    after: Controller,
)
    requires
        request.method is Other || (request.method is Get && request.path@ != "uart"@
            && request.path@ != "version"@) || (request.method is Post && request.path@
            != "uart"@),
        routed(
            route(request.method, request.path@, request.payload@.len()),
            request,
            before,
            handling,
            after,
        ),
    ensures
        handling matches Handling::Done(response) && response_view(response) == answered(
            request.response,
            if request.method is Other {
                Status::MethodNotAllowed
            } else {
                Status::NotFound
            },
            Seq::empty(),
        ),
        after == before,
{
}

/// `GET /version` is answered with the version, whatever else the request
/// holds and whatever state the controller is in, and the controller is left
/// as it was.
pub proof fn lemma_version_is_fixed(
    request: Request,
    before: Controller,
    handling: Handling,
    after: Controller,
)
    requires
        request.method == Method::Get,
        request.path@ == "version"@,
        routed(
            route(request.method, request.path@, request.payload@.len()),
            request,
            before,
            handling,
            after,
        ),
    ensures
        handling matches Handling::Done(response) && response_view(response) == answered(
            request.response,
            Status::Content,
            version_payload(),
        ),
        after == before,
{
    reveal_strlit("uart");
    reveal_strlit("version");
    assert("uart"@.len() != "version"@.len());
}

/// The answer to `GET /uart` never holds more than [`MAX_TRANSFER_UNIT`]
/// bytes: a read ends only with a completion that fits the room it was given.
pub proof fn lemma_read_answer_is_bounded(
    transaction: Transaction,
    completion: Completion,
    before: Controller,
    handling: Handling,
    after: Controller,
)
    requires
        transaction is Reading,
        transaction.fits(before.phase()),
        transaction.resumed(completion, before, handling, after),
    ensures
        handling matches Handling::Done(Some(response)) ==> response.payload@.len()
            <= MAX_TRANSFER_UNIT,
{
}

} // verus!
