use can_node::control::ControlLoop;
use can_node::control::SendFaultPolicy;
use can_node::control::State;
use can_node::control::BACKOFF_QUANTUM;
use can_node::control::POLL_QUANTUM;
use can_node::display::Point;
use can_node::error::BusError;
use can_node::error::DisplayError;
use can_node::error::IdentifierRangeError;
use can_node::event::Action;
use can_node::event::Event;
use can_node::event::Fault;
use can_node::event::LogEntry;
use can_node::event::LogLevel;
use can_node::event::Reaction;
use can_node::frame::Frame;
use can_node::frame::FrameId;
use can_node::reply::ReplyCounter;

fn silent(action: Action) -> Option<Reaction> {
    Some(Reaction { action, log: None })
}

fn logged(action: Action, level: LogLevel, text: &str) -> Option<Reaction> {
    Some(Reaction {
        action,
        log: Some(LogEntry {
            level,
            text: text.to_string(),
        }),
    })
}

fn status(text: &str) -> Action {
    Action::PrintAtPosition(text.to_string(), Point { x: 0, y: 16 })
}

fn frame(id: u16, data: &[u8]) -> Frame {
    Frame::new(FrameId::Standard(id), data).unwrap()
}

fn idle(counter: u16, policy: SendFaultPolicy) -> ControlLoop {
    let mut control = ControlLoop::new(ReplyCounter::new(counter), policy);
    assert_eq!(
        control.step(Event::BusInit(Ok(()))),
        silent(Action::PrintNext("Start bus".to_string()))
    );
    assert_eq!(
        control.step(Event::Displayed(Ok(()))),
        silent(Action::Poll)
    );
    control
}

fn sending(counter: u16, policy: SendFaultPolicy) -> ControlLoop {
    let mut control = idle(counter, policy);
    assert_eq!(control.step(Event::Polled(true)), silent(Action::Read));
    assert!(control
        .step(Event::Received(Ok(frame(42, &[5]))))
        .is_some());
    assert_eq!(
        control.step(Event::Displayed(Ok(()))),
        silent(Action::Send(frame(counter, &[6])))
    );
    control
}

#[test]
fn quanta_are_distinct() {
    assert_eq!(POLL_QUANTUM, 100);
    assert_eq!(BACKOFF_QUANTUM, 500);
}

#[test]
fn new_loop_is_booting() {
    let control = ControlLoop::new(ReplyCounter::new(200), SendFaultPolicy::Halt);
    assert_eq!(control.state(), State::Booting);
    assert_eq!(control.counter(), ReplyCounter::new(200));
    assert_eq!(control.policy(), SendFaultPolicy::Halt);
    let control = ControlLoop::new(ReplyCounter::new(0), SendFaultPolicy::Recover);
    assert_eq!(control.policy(), SendFaultPolicy::Recover);
    assert_eq!(control.counter().value, 0);
}

#[test]
fn init_success_shows_start_bus() {
    let mut control = ControlLoop::new(ReplyCounter::new(200), SendFaultPolicy::Halt);
    assert_eq!(
        control.step(Event::BusInit(Ok(()))),
        silent(Action::PrintNext("Start bus".to_string()))
    );
    assert_eq!(control.state(), State::Booting);
    assert_eq!(
        control.step(Event::Displayed(Ok(()))),
        silent(Action::Poll)
    );
    assert_eq!(control.state(), State::Idle);
}

#[test]
fn status_line_untouched_until_first_frame() {
    let mut control = idle(200, SendFaultPolicy::Halt);
    for _ in 0..50 {
        assert_eq!(
            control.step(Event::Polled(false)),
            silent(Action::Wait(100))
        );
        assert_eq!(control.state(), State::Idle);
        assert_eq!(control.step(Event::Waited), silent(Action::Poll));
        assert_eq!(control.state(), State::Idle);
    }
    assert_eq!(control.counter().value, 200);
    assert_eq!(control.step(Event::Polled(true)), silent(Action::Read));
    assert_eq!(
        control.step(Event::Received(Ok(frame(1, &[0])))),
        logged(
            status("Got message id: 1, content: [0]"),
            LogLevel::Info,
            "Got message id: 1, content: [0]"
        )
    );
}

#[test]
fn init_failure_shows_error_and_still_polls() {
    let mut control = ControlLoop::new(ReplyCounter::new(200), SendFaultPolicy::Halt);
    assert_eq!(
        control.step(Event::BusInit(Err(BusError::new("NewModeTimeout")))),
        logged(
            Action::PrintNext("Error bus NewModeTimeout".to_string()),
            LogLevel::Error,
            "NewModeTimeout"
        )
    );
    assert_eq!(control.state(), State::Booting);
    assert_eq!(
        control.step(Event::Displayed(Ok(()))),
        silent(Action::Poll)
    );
    assert_eq!(control.state(), State::Idle);
    assert_eq!(control.counter().value, 200);
}

#[test]
fn boot_message_that_cannot_be_shown_halts() {
    let mut control = ControlLoop::new(ReplyCounter::new(200), SendFaultPolicy::Recover);
    assert!(control.step(Event::BusInit(Ok(()))).is_some());
    assert_eq!(
        control.step(Event::Displayed(Err(DisplayError::new("BusWriteError")))),
        silent(Action::Halt(Fault::Display(DisplayError::new(
            "BusWriteError"
        ))))
    );
    assert_eq!(control.state(), State::Halted);
    assert_eq!(control.step(Event::Polled(true)), None);
    assert_eq!(control.step(Event::Waited), None);
    assert_eq!(control.state(), State::Halted);
}

#[test]
fn frame_42_at_counter_200() {
    let mut control = idle(200, SendFaultPolicy::Halt);
    assert_eq!(control.step(Event::Polled(true)), silent(Action::Read));
    assert_eq!(control.state(), State::Processing);
    assert_eq!(
        control.step(Event::Received(Ok(frame(42, &[5])))),
        logged(
            status("Got message id: 42, content: [5]"),
            LogLevel::Info,
            "Got message id: 42, content: [5]"
        )
    );
    assert_eq!(control.counter().value, 200);
    let reaction = control.step(Event::Displayed(Ok(()))).unwrap();
    assert_eq!(reaction.log, None);
    match reaction.action {
        Action::Send(reply) => {
            assert_eq!(reply.id(), FrameId::Standard(200));
            assert_eq!(reply.data(), &[6u8][..]);
        }
        other => panic!("no reply was sent: {:?}", other),
    }
    assert_eq!(control.counter().value, 200);
    assert_eq!(control.state(), State::Processing);
    assert_eq!(control.step(Event::Sent(Ok(()))), silent(Action::Poll));
    assert_eq!(control.counter().value, 201);
    assert_eq!(control.state(), State::Idle);
}

#[test]
fn frame_with_empty_payload_is_answered_with_one() {
    let mut control = idle(200, SendFaultPolicy::Halt);
    assert_eq!(control.step(Event::Polled(true)), silent(Action::Read));
    assert_eq!(
        control.step(Event::Received(Ok(frame(7, &[])))),
        logged(
            status("Got message id: 7, content: []"),
            LogLevel::Info,
            "Got message id: 7, content: []"
        )
    );
    assert_eq!(
        control.step(Event::Displayed(Ok(()))),
        silent(Action::Send(frame(200, &[1])))
    );
    assert_eq!(control.step(Event::Sent(Ok(()))), silent(Action::Poll));
    assert_eq!(control.counter().value, 201);
}

#[test]
fn frame_with_full_payload_is_answered_with_one_byte() {
    let mut control = idle(0, SendFaultPolicy::Halt);
    assert_eq!(control.step(Event::Polled(true)), silent(Action::Read));
    assert_eq!(
        control.step(Event::Received(Ok(frame(2047, &[255, 1, 2, 3, 4, 5, 6, 7])))),
        logged(
            status("Got message id: 2047, content: [255, 1, 2, 3, 4, 5, 6, 7]"),
            LogLevel::Info,
            "Got message id: 2047, content: [255, 1, 2, 3, 4, 5, 6, 7]"
        )
    );
    assert_eq!(
        control.step(Event::Displayed(Ok(()))),
        silent(Action::Send(frame(0, &[0])))
    );
}

#[test]
fn extended_frame_is_answered_with_standard_frame() {
    let mut control = idle(5, SendFaultPolicy::Halt);
    assert_eq!(control.step(Event::Polled(true)), silent(Action::Read));
    let received = Frame::new(FrameId::Extended(0x1ABC_DEF0), &[9, 9]).unwrap();
    assert_eq!(
        control.step(Event::Received(Ok(received))),
        logged(
            status("Got message id: 448585456, content: [9, 9]"),
            LogLevel::Info,
            "Got message id: 448585456, content: [9, 9]"
        )
    );
    assert_eq!(
        control.step(Event::Displayed(Ok(()))),
        silent(Action::Send(frame(5, &[10])))
    );
}

#[test]
fn read_fault_is_shown_and_backed_off() {
    let mut control = idle(200, SendFaultPolicy::Halt);
    assert_eq!(control.step(Event::Polled(true)), silent(Action::Read));
    assert_eq!(
        control.step(Event::Received(Err(BusError::new("NoMessage")))),
        logged(
            status("Error receiveNoMessage"),
            LogLevel::Error,
            "NoMessage"
        )
    );
    assert_eq!(control.counter().value, 200);
    assert_eq!(
        control.step(Event::Displayed(Ok(()))),
        silent(Action::Wait(500))
    );
    assert_eq!(control.state(), State::Processing);
    assert_eq!(control.step(Event::Polled(true)), None);
    assert_eq!(control.step(Event::Polled(false)), None);
    assert_eq!(control.state(), State::Processing);
    assert_eq!(control.step(Event::Waited), silent(Action::Poll));
    assert_eq!(control.state(), State::Idle);
    assert_eq!(control.counter().value, 200);
}

#[test]
fn read_fault_does_not_stop_the_loop() {
    let mut control = idle(200, SendFaultPolicy::Halt);
    for _ in 0..3 {
        assert_eq!(control.step(Event::Polled(true)), silent(Action::Read));
        assert!(control
            .step(Event::Received(Err(BusError::new("Spi(Timeout)"))))
            .is_some());
        assert_eq!(
            control.step(Event::Displayed(Ok(()))),
            silent(Action::Wait(BACKOFF_QUANTUM))
        );
        assert_eq!(control.step(Event::Waited), silent(Action::Poll));
    }
    assert_eq!(control.step(Event::Polled(true)), silent(Action::Read));
    assert!(control.step(Event::Received(Ok(frame(3, &[3])))).is_some());
    assert_eq!(
        control.step(Event::Displayed(Ok(()))),
        silent(Action::Send(frame(200, &[4])))
    );
}

#[test]
fn send_fault_keeps_counter_and_halts() {
    let mut control = sending(200, SendFaultPolicy::Halt);
    assert_eq!(
        control.step(Event::Sent(Err(BusError::new("TxFailed")))),
        logged(
            status("Error bus send TxFailed"),
            LogLevel::Error,
            "TxFailed"
        )
    );
    assert_eq!(control.counter().value, 200);
    assert_eq!(control.state(), State::Processing);
    assert_eq!(
        control.step(Event::Displayed(Ok(()))),
        silent(Action::Halt(Fault::Send(BusError::new("TxFailed"))))
    );
    assert_eq!(control.state(), State::Halted);
    assert_eq!(control.counter().value, 200);
    assert_eq!(control.step(Event::Waited), None);
    assert_eq!(control.step(Event::Polled(true)), None);
}

#[test]
fn send_fault_keeps_counter_and_recovers() {
    let mut control = sending(200, SendFaultPolicy::Recover);
    assert_eq!(
        control.step(Event::Sent(Err(BusError::new("TxBusy")))),
        logged(status("Error bus send TxBusy"), LogLevel::Error, "TxBusy")
    );
    assert_eq!(
        control.step(Event::Displayed(Ok(()))),
        silent(Action::Wait(500))
    );
    assert_eq!(control.counter().value, 200);
    assert_eq!(control.step(Event::Waited), silent(Action::Poll));
    assert_eq!(control.state(), State::Idle);
    assert_eq!(control.step(Event::Polled(true)), silent(Action::Read));
    assert!(control.step(Event::Received(Ok(frame(1, &[1])))).is_some());
    assert_eq!(
        control.step(Event::Displayed(Ok(()))),
        silent(Action::Send(frame(200, &[2])))
    );
    assert_eq!(control.step(Event::Sent(Ok(()))), silent(Action::Poll));
    assert_eq!(control.counter().value, 201);
}

#[test]
fn display_fault_while_processing_is_logged_and_passed_over() {
    let mut control = idle(200, SendFaultPolicy::Halt);
    assert_eq!(control.step(Event::Polled(true)), silent(Action::Read));
    assert!(control.step(Event::Received(Ok(frame(42, &[5])))).is_some());
    assert_eq!(
        control.step(Event::Displayed(Err(DisplayError::new("BusWriteError")))),
        logged(
            Action::Send(frame(200, &[6])),
            LogLevel::Error,
            "Txt error: BusWriteError"
        )
    );
    assert_eq!(control.step(Event::Sent(Ok(()))), silent(Action::Poll));
    assert_eq!(control.counter().value, 201);
}

#[test]
fn display_fault_while_reporting_read_fault_is_passed_over() {
    let mut control = idle(200, SendFaultPolicy::Halt);
    assert_eq!(control.step(Event::Polled(true)), silent(Action::Read));
    assert!(control
        .step(Event::Received(Err(BusError::new("InvalidDlc"))))
        .is_some());
    assert_eq!(
        control.step(Event::Displayed(Err(DisplayError::new("DCError")))),
        logged(Action::Wait(500), LogLevel::Error, "Txt error: DCError")
    );
    assert_eq!(control.step(Event::Waited), silent(Action::Poll));
}

#[test]
fn display_fault_while_reporting_send_fault_is_passed_over() {
    let mut control = sending(10, SendFaultPolicy::Recover);
    assert!(control
        .step(Event::Sent(Err(BusError::new("TxFailed"))))
        .is_some());
    assert_eq!(
        control.step(Event::Displayed(Err(DisplayError::new("CSError")))),
        logged(Action::Wait(500), LogLevel::Error, "Txt error: CSError")
    );

    let mut control = sending(10, SendFaultPolicy::Halt);
    assert!(control
        .step(Event::Sent(Err(BusError::new("TxFailed"))))
        .is_some());
    assert_eq!(
        control.step(Event::Displayed(Err(DisplayError::new("CSError")))),
        logged(
            Action::Halt(Fault::Send(BusError::new("TxFailed"))),
            LogLevel::Error,
            "Txt error: CSError"
        )
    );
}

#[test]
fn no_pending_frame_never_reads() {
    let mut control = idle(200, SendFaultPolicy::Halt);
    for _ in 0..1000 {
        let reaction = control.step(Event::Polled(false)).unwrap();
        assert_ne!(reaction.action, Action::Read);
        assert_eq!(reaction.action, Action::Wait(POLL_QUANTUM));
        assert_eq!(control.step(Event::Waited), silent(Action::Poll));
    }
}

#[test]
fn identifiers_stay_valid_until_the_range_is_used_up() {
    let mut control = idle(0, SendFaultPolicy::Halt);
    for round in 0u16..2048 {
        assert_eq!(control.counter().value, round);
        assert_eq!(control.step(Event::Polled(true)), silent(Action::Read));
        assert!(control.step(Event::Received(Ok(frame(42, &[5])))).is_some());
        match control.step(Event::Displayed(Ok(()))).unwrap().action {
            Action::Send(reply) => {
                assert_eq!(reply.id(), FrameId::Standard(round));
                assert!(reply.id().is_valid());
                assert!(embedded_can::StandardId::new(reply.id().raw() as u16).is_some());
                assert_eq!(reply.data(), &[6u8][..]);
            }
            other => panic!("no reply in round {}: {:?}", round, other),
        }
        assert_eq!(control.step(Event::Sent(Ok(()))), silent(Action::Poll));
    }
    assert_eq!(control.counter().value, 2048);
    assert_eq!(control.state(), State::Idle);
}

#[test]
fn range_exhaustion_halts_with_range_error() {
    let mut control = idle(2047, SendFaultPolicy::Recover);
    assert_eq!(control.step(Event::Polled(true)), silent(Action::Read));
    assert!(control.step(Event::Received(Ok(frame(1, &[])))).is_some());
    assert_eq!(
        control.step(Event::Displayed(Ok(()))),
        silent(Action::Send(frame(2047, &[1])))
    );
    assert_eq!(control.step(Event::Sent(Ok(()))), silent(Action::Poll));
    assert_eq!(control.counter().value, 2048);

    assert_eq!(control.step(Event::Polled(true)), silent(Action::Read));
    assert_eq!(
        control.step(Event::Received(Ok(frame(1, &[])))),
        logged(
            status("Got message id: 1, content: []"),
            LogLevel::Info,
            "Got message id: 1, content: []"
        )
    );
    assert_eq!(
        control.step(Event::Displayed(Ok(()))),
        silent(Action::Halt(Fault::IdentifierRange(
            IdentifierRangeError { value: 2048 }
        )))
    );
    assert_eq!(control.state(), State::Halted);
    assert_eq!(control.counter().value, 2048);
    assert_eq!(control.step(Event::Sent(Ok(()))), None);
}

#[test]
fn counter_from_200_reaches_the_range_end_after_1848_replies() {
    let mut control = idle(200, SendFaultPolicy::Halt);
    let mut replies = 0u32;
    loop {
        assert_eq!(control.step(Event::Polled(true)), silent(Action::Read));
        assert!(control.step(Event::Received(Ok(frame(9, &[9])))).is_some());
        match control.step(Event::Displayed(Ok(()))).unwrap().action {
            Action::Send(_) => {
                replies += 1;
                assert_eq!(control.step(Event::Sent(Ok(()))), silent(Action::Poll));
            }
            Action::Halt(fault) => {
                assert_eq!(
                    fault,
                    Fault::IdentifierRange(IdentifierRangeError { value: 2048 })
                );
                break;
            }
            other => panic!("neither reply nor halt: {:?}", other),
        }
    }
    assert_eq!(replies, 1848);
}

#[test]
fn unexpected_event_changes_nothing() {
    let mut control = ControlLoop::new(ReplyCounter::new(200), SendFaultPolicy::Halt);
    assert_eq!(control.step(Event::Polled(true)), None);
    assert_eq!(control.step(Event::Waited), None);
    assert_eq!(control.step(Event::Displayed(Ok(()))), None);
    assert_eq!(control.step(Event::Sent(Ok(()))), None);
    assert_eq!(control.step(Event::Received(Ok(frame(1, &[1])))), None);
    assert_eq!(control.state(), State::Booting);
    assert_eq!(
        control.step(Event::BusInit(Ok(()))),
        silent(Action::PrintNext("Start bus".to_string()))
    );
    assert_eq!(control.step(Event::BusInit(Ok(()))), None);
    assert_eq!(
        control.step(Event::Displayed(Ok(()))),
        silent(Action::Poll)
    );

    assert_eq!(control.step(Event::Received(Ok(frame(1, &[1])))), None);
    assert_eq!(control.step(Event::Sent(Ok(()))), None);
    assert_eq!(control.step(Event::Waited), None);
    assert_eq!(control.state(), State::Idle);
    assert_eq!(control.counter().value, 200);

    assert_eq!(control.step(Event::Polled(true)), silent(Action::Read));
    assert_eq!(control.step(Event::Polled(true)), None);
    assert_eq!(control.step(Event::Sent(Ok(()))), None);
    assert!(control.step(Event::Received(Ok(frame(1, &[1])))).is_some());
    assert_eq!(control.step(Event::Sent(Ok(()))), None);
    assert_eq!(
        control.step(Event::Displayed(Ok(()))),
        silent(Action::Send(frame(200, &[2])))
    );
    assert_eq!(control.step(Event::Displayed(Ok(()))), None);
    assert_eq!(control.counter().value, 200);
    assert_eq!(control.step(Event::Sent(Ok(()))), silent(Action::Poll));
    assert_eq!(control.counter().value, 201);
}

#[test]
fn each_reaction_shows_at_most_one_text() {
    let mut control = idle(200, SendFaultPolicy::Recover);
    let events = vec![
        Event::Polled(true),
        Event::Received(Ok(frame(42, &[5]))),
        Event::Displayed(Ok(())),
        Event::Sent(Err(BusError::new("TxFailed"))),
        Event::Displayed(Ok(())),
        Event::Waited,
        Event::Polled(true),
        Event::Received(Err(BusError::new("NoMessage"))),
        Event::Displayed(Ok(())),
        Event::Waited,
    ];
    let mut shown: Vec<String> = Vec::new();
    for event in events {
        match control.step(event).unwrap().action {
            Action::PrintAtPosition(text, point) => {
                assert_eq!(point, Point::new(0, 16));
                shown.push(text);
            }
            Action::PrintNext(text) => panic!("boot line overwritten with {}", text),
            _ => {}
        }
    }
    assert_eq!(
        shown,
        vec![
            "Got message id: 42, content: [5]".to_string(),
            "Error bus send TxFailed".to_string(),
            "Error receiveNoMessage".to_string(),
        ]
    );
}
