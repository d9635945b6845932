use uart_bridge::controller::{
    Command, Completion, Controller, Error, Phase, Progress, UartError, MAX_TRANSFER_UNIT,
};

fn run_write(
    len: usize,
    transmitted: Result<usize, UartError>,
    flushed: Result<(), UartError>,
) -> (Vec<Command>, Vec<bool>, Result<usize, Error>) {
    let mut controller = Controller::new();
    let mut commands = Vec::new();
    let mut levels = vec![controller.transmit_enabled()];
    let mut command = controller.write(len);
    loop {
        commands.push(command);
        let completion = match command {
            Command::RaiseEnable => Completion::EnableRaised,
            Command::Transmit => Completion::Transmitted(transmitted),
            Command::Flush => Completion::Flushed(flushed),
            Command::LowerEnable => Completion::EnableLowered,
            Command::Receive { .. } => unreachable!(),
        };
        let progress = controller.complete(&completion);
        levels.push(controller.transmit_enabled());
        match progress {
            Progress::Pending(next) => command = next,
            Progress::Finished(outcome) => {
                assert_eq!(controller.current_phase(), Phase::Idle);
                return (commands, levels, outcome);
            }
            Progress::Rejected => panic!("a completion of the script was rejected"),
        }
    }
}

#[test]
fn maximum_transfer_unit_is_128() {
    assert_eq!(MAX_TRANSFER_UNIT, 128);
}

#[test]
fn new_controller_rests_with_line_low() {
    let controller = Controller::new();
    assert_eq!(controller.current_phase(), Phase::Idle);
    assert!(!controller.transmit_enabled());
    assert_eq!(controller.outstanding(), None);
}

#[test]
fn write_of_ten_bytes_toggles_enable_once() {
    let (commands, levels, outcome) = run_write(10, Ok(10), Ok(()));
    assert_eq!(
        commands,
        vec![Command::RaiseEnable, Command::Transmit, Command::Flush, Command::LowerEnable]
    );
    assert_eq!(levels, vec![false, true, true, true, false]);
    assert_eq!(outcome, Ok(10));
}

#[test]
fn write_lowers_enable_when_transmit_fails() {
    let (commands, levels, outcome) = run_write(10, Err(UartError::InvalidArgument), Ok(()));
    assert_eq!(commands, vec![Command::RaiseEnable, Command::Transmit, Command::LowerEnable]);
    assert_eq!(levels, vec![false, true, true, false]);
    assert_eq!(outcome, Err(Error::Uart(UartError::InvalidArgument)));
}

#[test]
fn write_lowers_enable_when_flush_fails() {
    let (commands, levels, outcome) = run_write(4, Ok(4), Err(UartError::RxFifoOverflow));
    assert_eq!(
        commands,
        vec![Command::RaiseEnable, Command::Transmit, Command::Flush, Command::LowerEnable]
    );
    assert_eq!(levels, vec![false, true, true, true, false]);
    assert_eq!(outcome, Err(Error::Uart(UartError::RxFifoOverflow)));
}

#[test]
fn write_reports_a_short_transmit() {
    let (_, _, outcome) = run_write(128, Ok(100), Ok(()));
    assert_eq!(outcome, Ok(100));
}

#[test]
fn write_of_nothing_still_brackets_the_line() {
    let (commands, levels, outcome) = run_write(0, Ok(0), Ok(()));
    assert_eq!(commands.len(), 4);
    assert_eq!(levels, vec![false, true, true, true, false]);
    assert_eq!(outcome, Ok(0));
}

#[test]
fn write_phases_follow_each_other() {
    let mut controller = Controller::new();
    assert_eq!(controller.write(3), Command::RaiseEnable);
    assert_eq!(controller.current_phase(), Phase::Raising { len: 3 });
    assert_eq!(controller.outstanding(), Some(Command::RaiseEnable));
    controller.complete(&Completion::EnableRaised);
    assert_eq!(controller.current_phase(), Phase::Transmitting { len: 3 });
    assert_eq!(controller.outstanding(), Some(Command::Transmit));
    controller.complete(&Completion::Transmitted(Ok(3)));
    assert_eq!(controller.current_phase(), Phase::Flushing { accepted: 3 });
    assert_eq!(controller.outstanding(), Some(Command::Flush));
    controller.complete(&Completion::Flushed(Ok(())));
    assert_eq!(controller.current_phase(), Phase::Lowering { outcome: Ok(3) });
    assert_eq!(controller.outstanding(), Some(Command::LowerEnable));
    assert!(controller.transmit_enabled());
    controller.complete(&Completion::EnableLowered);
    assert_eq!(controller.current_phase(), Phase::Idle);
}

#[test]
fn transmit_of_more_than_offered_is_rejected() {
    let mut controller = Controller::new();
    controller.write(3);
    controller.complete(&Completion::EnableRaised);
    assert_eq!(controller.complete(&Completion::Transmitted(Ok(4))), Progress::Rejected);
    assert_eq!(controller.current_phase(), Phase::Transmitting { len: 3 });
    assert!(controller.transmit_enabled());
}

#[test]
fn completion_out_of_turn_is_rejected() {
    let mut controller = Controller::new();
    assert_eq!(controller.complete(&Completion::EnableLowered), Progress::Rejected);
    assert_eq!(controller.current_phase(), Phase::Idle);
    controller.write(1);
    assert_eq!(controller.complete(&Completion::Flushed(Ok(()))), Progress::Rejected);
    assert_eq!(controller.complete(&Completion::Transmitted(Ok(1))), Progress::Rejected);
    assert_eq!(controller.complete(&Completion::Received(Ok(vec![1]))), Progress::Rejected);
    assert_eq!(controller.current_phase(), Phase::Raising { len: 1 });
    assert!(!controller.transmit_enabled());
}

#[test]
fn read_leaves_enable_alone() {
    let mut controller = Controller::new();
    assert_eq!(controller.read(128), Command::Receive { capacity: 128 });
    assert_eq!(controller.current_phase(), Phase::Receiving { capacity: 128 });
    assert!(!controller.transmit_enabled());
    let progress = controller.complete(&Completion::Received(Ok(vec![1, 2, 3, 4, 5])));
    assert_eq!(progress, Progress::Finished(Ok(5)));
    assert_eq!(controller.current_phase(), Phase::Idle);
    assert!(!controller.transmit_enabled());
}

#[test]
fn read_failure_is_a_uart_error() {
    let mut controller = Controller::new();
    controller.read(16);
    let progress = controller.complete(&Completion::Received(Err(UartError::RxFifoOverflow)));
    assert_eq!(progress, Progress::Finished(Err(Error::Uart(UartError::RxFifoOverflow))));
    assert_eq!(controller.current_phase(), Phase::Idle);
}

#[test]
fn read_of_more_than_capacity_is_rejected() {
    let mut controller = Controller::new();
    controller.read(2);
    assert_eq!(controller.complete(&Completion::Received(Ok(vec![1, 2, 3]))), Progress::Rejected);
    assert_eq!(controller.current_phase(), Phase::Receiving { capacity: 2 });
    assert_eq!(
        controller.complete(&Completion::Received(Ok(vec![1, 2]))),
        Progress::Finished(Ok(2))
    );
}
