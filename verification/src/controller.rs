//! The half-duplex serial controller: the order in which the transmit-enable
//! line, the transmitter and the receiver are driven.
//!
//! The controller never touches hardware. It hands out one [`Command`] at a
//! time and is told the [`Completion`] of each; the transmit-enable line is
//! raised before the first byte is sent and lowered after the last one has
//! left, whatever the transmitter reports in between.

use vstd::prelude::*;

verus! {

/// The most bytes that one read returns and that one write accepts.
pub const MAX_TRANSFER_UNIT: usize = 128;

/// What the serial port reports when a transfer fails.
#[derive(Clone, Copy, Debug, PartialEq, Eq, Structural)]
pub enum UartError {
    /// The port refused an argument.
    InvalidArgument,
    /// Bytes arrived faster than they were taken from the receive queue.
    RxFifoOverflow,
}

/// The failure of a read or a write.
#[derive(Clone, Copy, Debug, PartialEq, Eq, Structural)]
pub enum Error {
    /// The serial port failed.
    Uart(UartError),
}

/// One thing for the driver to do on the hardware.
#[derive(Clone, Copy, Debug, PartialEq, Eq, Structural)]
pub enum Command {
    /// Drive the transmit-enable line high.
    RaiseEnable,
    /// Queue the bytes of the write to the transmitter.
    Transmit,
    /// Wait until the transmitter has shifted out its last bit.
    Flush,
    /// Drive the transmit-enable line low.
    LowerEnable,
    /// Receive at most `capacity` bytes, waiting for the first one.
    Receive { capacity: usize },
}

/// What the driver reports once a command has been carried out.
#[derive(Debug, PartialEq, Eq)]
pub enum Completion {
    /// The transmit-enable line is high.
    EnableRaised,
    /// The transmitter took this many bytes, or failed.
    Transmitted(Result<usize, UartError>),
    /// The transmitter is drained, or failed.
    Flushed(Result<(), UartError>),
    /// The transmit-enable line is low.
    EnableLowered,
    /// The receiver handed over these bytes, or failed.
    Received(Result<Vec<u8>, UartError>),
}

/// Where a read or a write stands.
#[derive(Clone, Copy, Debug, PartialEq, Eq)]
pub enum Phase {
    /// No transfer is under way.
    Idle,
    /// A write of `len` bytes waits for the line to go high.
    Raising { len: usize },
    /// A write waits for the transmitter to take the `len` bytes.
    Transmitting { len: usize },
    /// A write waits for the transmitter to drain.
    Flushing { accepted: usize },
    /// A write waits for the line to go low; `outcome` is what it will return.
    Lowering { outcome: Result<usize, Error> },
    /// A read waits for bytes.
    Receiving { capacity: usize },
}

/// The answer of the controller to a completion.
#[derive(Clone, Copy, Debug, PartialEq, Eq)]
pub enum Progress {
    /// The transfer goes on with this command.
    Pending(Command),
    /// The transfer is over: the bytes moved, or the failure.
    Finished(Result<usize, Error>),
    /// The completion does not answer the outstanding command; nothing changed.
    Rejected,
}

impl Phase {
    /// The phases in which the transmit-enable line is high.
    pub open spec fn drives_line(self) -> bool {
        self is Transmitting || self is Flushing || self is Lowering
    }

    /// The command whose completion the phase waits for.
    pub open spec fn awaited(self) -> Option<Command> {
        match self {
            Phase::Idle => None,
            Phase::Raising { .. } => Some(Command::RaiseEnable),
            Phase::Transmitting { .. } => Some(Command::Transmit),
            Phase::Flushing { .. } => Some(Command::Flush),
            Phase::Lowering { .. } => Some(Command::LowerEnable),
            Phase::Receiving { capacity } => Some(Command::Receive { capacity }),
        }
    }

    /// Whether `completion` answers the command that the phase waits for. A
    /// transmitter cannot take more bytes than it was offered, nor a receiver
    /// hand over more than it was given room for.
    pub open spec fn accepts(self, completion: Completion) -> bool {
        match (self, completion) {
            (Phase::Raising { .. }, Completion::EnableRaised) => true,
            (Phase::Transmitting { len }, Completion::Transmitted(Ok(accepted))) => accepted
                <= len,
            (Phase::Transmitting { .. }, Completion::Transmitted(Err(_))) => true,
            (Phase::Flushing { .. }, Completion::Flushed(_)) => true,
            (Phase::Lowering { .. }, Completion::EnableLowered) => true,
            (Phase::Receiving { capacity }, Completion::Received(Ok(bytes))) => bytes@.len()
                <= capacity,
            (Phase::Receiving { .. }, Completion::Received(Err(_))) => true,
            _ => false,
        }
    }

    /// The phase that follows once `completion` has arrived.
    pub open spec fn after(self, completion: Completion) -> Phase {
        match (self, completion) {
            (Phase::Raising { len }, Completion::EnableRaised) => Phase::Transmitting { len },
            (Phase::Transmitting { len }, Completion::Transmitted(Ok(accepted))) => if accepted
                <= len {
                Phase::Flushing { accepted }
            } else {
                self
            },
            (Phase::Transmitting { .. }, Completion::Transmitted(Err(fault))) => Phase::Lowering {
                outcome: Err(Error::Uart(fault)),
            },
            (Phase::Flushing { accepted }, Completion::Flushed(Ok(_))) => Phase::Lowering {
                outcome: Ok(accepted),
            },
            (Phase::Flushing { .. }, Completion::Flushed(Err(fault))) => Phase::Lowering {
                outcome: Err(Error::Uart(fault)),
            },
            _ => if self.accepts(completion) {
                Phase::Idle
            } else {
                self
            },
        }
    }

    /// What the controller answers once `completion` has arrived.
    pub open spec fn answer(self, completion: Completion) -> Progress {
        if !self.accepts(completion) {
            Progress::Rejected
        } else {
            match (self, completion) {
                (Phase::Lowering { outcome }, _) => Progress::Finished(outcome),
                (_, Completion::Received(Ok(bytes))) => Progress::Finished(
                    Ok(bytes@.len() as usize),
                ),
                (_, Completion::Received(Err(fault))) => Progress::Finished(
                    Err(Error::Uart(fault)),
                ),
                _ => Progress::Pending(self.after(completion).awaited().unwrap()),
            }
        }
    }
}

/// The state of the serial controller.
#[derive(Debug)]
pub struct Controller {
    phase: Phase,
    tx_enable: bool,
}

impl Controller {
    /// Where the transfer under way stands.
    pub closed spec fn phase(&self) -> Phase {
        self.phase
    }

    /// The level of the transmit-enable line, as far as completions told.
    pub closed spec fn tx_enable(&self) -> bool {
        self.tx_enable
    }

    /// The line is high exactly while a write is between the raising and the
    /// lowering of it.
    pub open spec fn wf(&self) -> bool {
        self.tx_enable() == self.phase().drives_line()
    }

    /// No transfer is under way.
    pub open spec fn is_idle(&self) -> bool {
        self.phase() is Idle
    }

    /// A controller at rest, with the transmit-enable line low.
    pub fn new() -> (controller: Controller)
        ensures
            controller.wf(),
            controller.phase() == Phase::Idle,
            !controller.tx_enable(),
    {
        Controller { phase: Phase::Idle, tx_enable: false }
    }

    /// The phase of the transfer under way.
    pub fn current_phase(&self) -> (phase: Phase)
        ensures
            phase == self.phase(),
    {
        self.phase
    }

    /// The level of the transmit-enable line.
    pub fn transmit_enabled(&self) -> (high: bool)
        ensures
            high == self.tx_enable(),
    {
        self.tx_enable
    }

    /// The command that is outstanding, if a transfer is under way.
    pub fn outstanding(&self) -> (command: Option<Command>)
        ensures
            command == self.phase().awaited(),
    {
        match self.phase {
            Phase::Idle => None,
            Phase::Raising { .. } => Some(Command::RaiseEnable),
            Phase::Transmitting { .. } => Some(Command::Transmit),
            Phase::Flushing { .. } => Some(Command::Flush),
            Phase::Lowering { .. } => Some(Command::LowerEnable),
            Phase::Receiving { capacity } => Some(Command::Receive { capacity }),
        }
    }

    /// Starts a read of at most `capacity` bytes. The transmit-enable line is
    /// left alone: the receiver always listens.
    pub fn read(&mut self, capacity: usize) -> (command: Command)
        requires
            old(self).wf(),
            old(self).is_idle(),
            capacity <= MAX_TRANSFER_UNIT,
        ensures
            final(self).wf(),
            final(self).phase() == (Phase::Receiving { capacity }),
            final(self).tx_enable() == old(self).tx_enable(),
            command == (Command::Receive { capacity }),
    {
        self.phase = Phase::Receiving { capacity };
        Command::Receive { capacity }
    }

    /// Starts a write of `len` bytes. The first thing to do is to raise the
    /// transmit-enable line; the bytes follow once it is high.
    pub fn write(&mut self, len: usize) -> (command: Command)
        requires
            old(self).wf(),
            old(self).is_idle(),
            len <= MAX_TRANSFER_UNIT,
        ensures
            final(self).wf(),
            final(self).phase() == (Phase::Raising { len }),
            !final(self).tx_enable(),
            command == Command::RaiseEnable,
    {
        self.phase = Phase::Raising { len };
        Command::RaiseEnable
    }

    /// Takes the completion of the outstanding command and says how the
    /// transfer goes on. A completion that does not answer the outstanding
    /// command changes nothing.
    pub fn complete(&mut self, completion: &Completion) -> (progress: Progress)
        requires
            old(self).wf(),
        ensures
            final(self).wf(),
            final(self).phase() == old(self).phase().after(*completion),
            progress == old(self).phase().answer(*completion),
            progress is Rejected ==> *final(self) == *old(self),
    {
        match (self.phase, completion) {
            (Phase::Raising { len }, Completion::EnableRaised) => {
                self.tx_enable = true;
                self.phase = Phase::Transmitting { len };
                Progress::Pending(Command::Transmit)
            },
            (Phase::Transmitting { len }, Completion::Transmitted(Ok(accepted))) => {
                if *accepted <= len {
                    self.phase = Phase::Flushing { accepted: *accepted };
                    Progress::Pending(Command::Flush)
                } else {
                    Progress::Rejected
                }
            },
            (Phase::Transmitting { .. }, Completion::Transmitted(Err(fault))) => {
                self.phase = Phase::Lowering { outcome: Err(Error::Uart(*fault)) };
                Progress::Pending(Command::LowerEnable)
            },
            (Phase::Flushing { accepted }, Completion::Flushed(Ok(_))) => {
                self.phase = Phase::Lowering { outcome: Ok(accepted) };
                Progress::Pending(Command::LowerEnable)
            },
            (Phase::Flushing { .. }, Completion::Flushed(Err(fault))) => {
                self.phase = Phase::Lowering { outcome: Err(Error::Uart(*fault)) };
                Progress::Pending(Command::LowerEnable)
            },
            (Phase::Lowering { outcome }, Completion::EnableLowered) => {
                self.tx_enable = false;
                self.phase = Phase::Idle;
                Progress::Finished(outcome)
            },
            (Phase::Receiving { capacity }, Completion::Received(Ok(bytes))) => {
                if bytes.len() <= capacity {
                    self.phase = Phase::Idle;
                    Progress::Finished(Ok(bytes.len()))
                } else {
                    Progress::Rejected
                }
            },
            (Phase::Receiving { .. }, Completion::Received(Err(fault))) => {
                self.phase = Phase::Idle;
                Progress::Finished(Err(Error::Uart(*fault)))
            },
            _ => Progress::Rejected,
        }
    }
}

/// What a write returns, given what the transmitter reported of the bytes
/// and of the draining. The draining is not asked for once the bytes failed.
pub open spec fn write_outcome(
    transmitted: Result<usize, UartError>,
    flushed: Result<(), UartError>,
) -> Result<usize, Error> {
    match (transmitted, flushed) {
        (Err(fault), _) => Err(Error::Uart(fault)),
        (Ok(_), Err(fault)) => Err(Error::Uart(fault)),
        (Ok(accepted), Ok(_)) => Ok(accepted),
    }
}

/// The transmit-enable line is high whenever the transmitter is asked to
/// send or to drain, and low whenever the controller is at rest.
pub proof fn lemma_enable_covers_transmission(controller: Controller)
    requires
        controller.wf(),
    ensures
        controller.phase().awaited() == Some(Command::Transmit) ==> controller.tx_enable(),
        controller.phase().awaited() == Some(Command::Flush) ==> controller.tx_enable(),
        controller.is_idle() ==> !controller.tx_enable(),
{
}

/// Once the line is high, the only completion that brings the controller to
/// rest is the lowering of the line: no failure of the transmitter skips it.
pub proof fn lemma_rest_only_after_lowering(phase: Phase, completion: Completion)
    requires
        phase.drives_line(),
    ensures
        phase.after(completion) is Idle <==> phase is Lowering && completion is EnableLowered,
        phase.answer(completion) is Finished <==> phase is Lowering && completion
            is EnableLowered,
        !(phase.after(completion) is Idle) ==> phase.after(completion).drives_line(),
{
}

/// A whole write, whatever the transmitter reports: the line goes high, the
/// bytes are sent, the transmitter is drained if it took them, the line goes
/// low, and only then the outcome is handed out. The line is high from the
/// sending to the lowering and low at both ends.
pub proof fn lemma_write_sequence(
    len: usize,
    transmitted: Result<usize, UartError>,
    flushed: Result<(), UartError>,
)
    requires
        transmitted matches Ok(accepted) ==> accepted <= len,
    ensures
        ({
            let raising = Phase::Raising { len };
            let sending = raising.after(Completion::EnableRaised);
            let sent = sending.after(Completion::Transmitted(transmitted));
            let lowering = if transmitted is Ok {
                sent.after(Completion::Flushed(flushed))
            } else {
                sent
            };
            &&& !raising.drives_line()
            &&& raising.answer(Completion::EnableRaised) == Progress::Pending(Command::Transmit)
            &&& sending.drives_line()
            &&& sending.answer(Completion::Transmitted(transmitted)) == Progress::Pending(
                if transmitted is Ok {
                    Command::Flush
                } else {
                    Command::LowerEnable
                },
            )
            &&& sent.drives_line()
            &&& transmitted is Ok ==> sent.answer(Completion::Flushed(flushed))
                == Progress::Pending(Command::LowerEnable)
            &&& lowering.drives_line()
            &&& lowering.answer(Completion::EnableLowered) == Progress::Finished(
                write_outcome(transmitted, flushed),
            )
            &&& lowering.after(Completion::EnableLowered) == Phase::Idle
            &&& !Phase::Idle.drives_line()
        }),
{
}

} // verus!
