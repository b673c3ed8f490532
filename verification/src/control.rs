//! The control loop of the node, as a state machine.
//!
//! The loop owns the reply counter and decides; it performs nothing itself.
//! It is handed the outcome of the operation it asked for last
//! ([`ControlLoop::step`]) and answers with the operation to perform next.
//! The transition function [`ControlLoopView::next`] is the specification of
//! the loop; `step` is proved to compute it.

use crate::display::status_point;
use crate::display::status_position;
use crate::error::BusError;
use crate::error::DisplayError;
use crate::event::Action;
use crate::event::ActionView;
use crate::event::Event;
use crate::event::EventView;
use crate::event::Fault;
use crate::event::FaultView;
use crate::event::display_outcome;
use crate::event::log_view;
use crate::event::LogEntry;
use crate::event::LogEntryView;
use crate::event::LogLevel;
use crate::event::Reaction;
use crate::event::ReactionView;
use crate::frame::Frame;
use crate::frame::FrameView;
use crate::reply::reply_frame;
use crate::reply::reply_to;
use crate::reply::ReplyCounter;
use crate::text::display_fault_message;
use crate::text::display_fault_text;
use crate::text::init_fault_message;
use crate::text::init_fault_text;
use crate::text::read_fault_message;
use crate::text::read_fault_text;
use crate::text::received_message;
use crate::text::received_text;
use crate::text::send_fault_message;
use crate::text::send_fault_text;
use crate::text::start_message;
use crate::text::start_text;
use vstd::prelude::*;
use vstd::string::StringExecFns;

verus! {

/// Time units to wait after the ready signal showed no pending frame.
pub const POLL_QUANTUM: u32 = 100;

/// Time units to wait after a fault of the bus, so that a faulting bus is
/// not hammered.
pub const BACKOFF_QUANTUM: u32 = 500;

/// What the loop does once a reply could not be sent and the fault has been
/// reported.
#[derive(Clone, Copy, Debug, PartialEq, Eq, Structural)]
pub enum SendFaultPolicy {
    /// Stop for good, with [`Fault::Send`].
    Halt,
    /// Back off and go on polling, as after a frame that could not be read.
    Recover,
}

/// The states of the loop as seen from outside.
#[derive(Clone, Copy, Debug, PartialEq, Eq, Structural)]
pub enum State {
    /// The bus is being set up and the boot message shown.
    Booting,
    /// The loop polls the ready signal, or waits to poll it again.
    Idle,
    /// A frame is pending and is being read, shown and answered.
    Processing,
    /// The loop has stopped for good.
    Halted,
}

/// Where exactly the loop stands: which outcome it waits for.
pub enum PhaseView {
    /// Waits for the outcome of setting up the bus.
    Booting,
    /// Waits for the boot message to be shown.
    BootReport,
    /// Waits for the ready signal to be read.
    Idle,
    /// Waits for the poll quantum to pass.
    Waiting,
    /// Waits for the pending frame to be drained.
    Reading,
    /// Waits for the status text of the received frame to be shown.
    Announcing(FrameView),
    /// Waits for the reply to be transmitted.
    Sending,
    /// Waits for the text of a read fault to be shown.
    ReportingReadFault,
    /// Waits for the text of a send fault, of the given cause, to be shown.
    ReportingSendFault(Seq<char>),
    /// Waits for the backoff quantum to pass.
    BackingOff,
    /// Waits for nothing.
    Halted,
}

impl PhaseView {
    /// The state that the phase belongs to.
    pub open spec fn state(self) -> State {
        match self {
            PhaseView::Booting | PhaseView::BootReport => State::Booting,
            PhaseView::Idle | PhaseView::Waiting => State::Idle,
            PhaseView::Halted => State::Halted,
            _ => State::Processing,
        }
    }
}

/// The log line for the cause of a bus fault.
pub open spec fn bus_fault_log(cause: Seq<char>) -> Option<LogEntryView> {
    Some(LogEntryView { level: LogLevel::Error, text: cause })
}

/// The log line for the outcome of a display operation whose failure the
/// loop passes over: none if the text was shown.
pub open spec fn display_log(outcome: Result<(), Seq<char>>) -> Option<LogEntryView> {
    match outcome {
        Ok(_) => None,
        Err(cause) => Some(LogEntryView { level: LogLevel::Error, text: display_fault_text(cause) }),
    }
}

/// The whole state of the loop, as mathematical values.
pub struct ControlLoopView {
    pub phase: PhaseView,
    pub counter: ReplyCounter,
    pub policy: SendFaultPolicy,
}

impl ControlLoopView {
    /// The loop moves to `phase`, with the counter as it is, and asks for
    /// `action`.
    pub open spec fn goes(self, phase: PhaseView, action: ActionView, log: Option<LogEntryView>)
        -> Option<(ControlLoopView, ReactionView)> {
        Some((ControlLoopView { phase, ..self }, ReactionView { action, log }))
    }

    /// The transition function: the state after `event` and the reaction to
    /// it, or `None` where `event` is not the outcome that the loop waits
    /// for.
    pub open spec fn next(self, event: EventView) -> Option<(ControlLoopView, ReactionView)> {
        match (self.phase, event) {
            (PhaseView::Booting, EventView::BusInit(Ok(_))) => self.goes(
                PhaseView::BootReport,
                ActionView::PrintNext(start_text()),
                None,
            ),
            (PhaseView::Booting, EventView::BusInit(Err(cause))) => self.goes(
                PhaseView::BootReport,
                ActionView::PrintNext(init_fault_text(cause)),
                bus_fault_log(cause),
            ),
            (PhaseView::BootReport, EventView::Displayed(Ok(_))) => self.goes(
                PhaseView::Idle,
                ActionView::Poll,
                None,
            ),
            (PhaseView::BootReport, EventView::Displayed(Err(cause))) => self.goes(
                PhaseView::Halted,
                ActionView::Halt(FaultView::Display(cause)),
                None,
            ),
            (PhaseView::Idle, EventView::Polled(pending)) => if pending {
                self.goes(PhaseView::Reading, ActionView::Read, None)
            } else {
                self.goes(PhaseView::Waiting, ActionView::Wait(POLL_QUANTUM), None)
            },
            (PhaseView::Waiting, EventView::Waited) => self.goes(
                PhaseView::Idle,
                ActionView::Poll,
                None,
            ),
            (PhaseView::Reading, EventView::Received(Ok(frame))) => self.goes(
                PhaseView::Announcing(frame),
                ActionView::PrintAtPosition(received_text(frame), status_position()),
                Some(LogEntryView { level: LogLevel::Info, text: received_text(frame) }),
            ),
            (PhaseView::Reading, EventView::Received(Err(cause))) => self.goes(
                PhaseView::ReportingReadFault,
                ActionView::PrintAtPosition(read_fault_text(cause), status_position()),
                bus_fault_log(cause),
            ),
            (PhaseView::Announcing(frame), EventView::Displayed(outcome)) => match reply_to(
                self.counter,
                frame,
            ) {
                Ok(reply) => self.goes(
                    PhaseView::Sending,
                    ActionView::Send(reply),
                    display_log(outcome),
                ),
                Err(error) => self.goes(
                    PhaseView::Halted,
                    ActionView::Halt(FaultView::IdentifierRange(error)),
                    display_log(outcome),
                ),
            },
            (PhaseView::Sending, EventView::Sent(Ok(_))) => Some(
                (
                    ControlLoopView {
                        phase: PhaseView::Idle,
                        counter: self.counter.next(),
                        policy: self.policy,
                    },
                    ReactionView { action: ActionView::Poll, log: None },
                ),
            ),
            (PhaseView::Sending, EventView::Sent(Err(cause))) => self.goes(
                PhaseView::ReportingSendFault(cause),
                ActionView::PrintAtPosition(send_fault_text(cause), status_position()),
                bus_fault_log(cause),
            ),
            (PhaseView::ReportingReadFault, EventView::Displayed(outcome)) => self.goes(
                PhaseView::BackingOff,
                ActionView::Wait(BACKOFF_QUANTUM),
                display_log(outcome),
            ),
            (PhaseView::ReportingSendFault(cause), EventView::Displayed(outcome)) => match self.policy {
                SendFaultPolicy::Halt => self.goes(
                    PhaseView::Halted,
                    ActionView::Halt(FaultView::Send(cause)),
                    display_log(outcome),
                ),
                SendFaultPolicy::Recover => self.goes(
                    PhaseView::BackingOff,
                    ActionView::Wait(BACKOFF_QUANTUM),
                    display_log(outcome),
                ),
            },
            (PhaseView::BackingOff, EventView::Waited) => self.goes(
                PhaseView::Idle,
                ActionView::Poll,
                None,
            ),
            _ => None,
        }
    }
}

enum Phase {
    Booting,
    BootReport,
    Idle,
    Waiting,
    Reading,
    Announcing(Frame),
    Sending,
    ReportingReadFault,
    ReportingSendFault(BusError),
    BackingOff,
    Halted,
}

impl View for Phase {
    type V = PhaseView;

    closed spec fn view(&self) -> PhaseView {
        match *self {
            Phase::Booting => PhaseView::Booting,
            Phase::BootReport => PhaseView::BootReport,
            Phase::Idle => PhaseView::Idle,
            Phase::Waiting => PhaseView::Waiting,
            Phase::Reading => PhaseView::Reading,
            Phase::Announcing(frame) => PhaseView::Announcing(frame@),
            Phase::Sending => PhaseView::Sending,
            Phase::ReportingReadFault => PhaseView::ReportingReadFault,
            Phase::ReportingSendFault(error) => PhaseView::ReportingSendFault(error@),
            Phase::BackingOff => PhaseView::BackingOff,
            Phase::Halted => PhaseView::Halted,
        }
    }
}

/// The control loop: the reply counter, the policy for send faults, and the
/// outcome that the loop waits for.
pub struct ControlLoop {
    phase: Phase,
    counter: ReplyCounter,
    policy: SendFaultPolicy,
}

impl View for ControlLoop {
    type V = ControlLoopView;

    closed spec fn view(&self) -> ControlLoopView {
        ControlLoopView { phase: self.phase@, counter: self.counter, policy: self.policy }
    }
}

fn bus_fault_entry(error: &BusError) -> (log: Option<LogEntry>)
    ensures
        log_view(log) == bus_fault_log(error@),
{
    Some(LogEntry { level: LogLevel::Error, text: String::from_str(error.description()) })
}

fn display_entry(outcome: Result<(), DisplayError>) -> (log: Option<LogEntry>)
    ensures
        log_view(log) == display_log(display_outcome(outcome)),
{
    match outcome {
        Ok(_) => None,
        Err(error) => Some(
            LogEntry { level: LogLevel::Error, text: display_fault_message(&error) },
        ),
    }
}

impl ControlLoop {
    /// A loop that waits for the bus to be set up, with its reply counter at
    /// `counter`.
    pub fn new(counter: ReplyCounter, policy: SendFaultPolicy) -> (control: ControlLoop)
        ensures
            control@ == (ControlLoopView { phase: PhaseView::Booting, counter, policy }),
    {
        ControlLoop { phase: Phase::Booting, counter, policy }
    }

    /// The reply counter.
    pub fn counter(&self) -> (counter: ReplyCounter)
        ensures
            counter == self@.counter,
    {
        self.counter
    }

    /// The policy for send faults.
    pub fn policy(&self) -> (policy: SendFaultPolicy)
        ensures
            policy == self@.policy,
    {
        self.policy
    }

    /// The state of the loop.
    pub fn state(&self) -> (state: State)
        ensures
            state == self@.phase.state(),
    {
        match &self.phase {
            Phase::Booting | Phase::BootReport => State::Booting,
            Phase::Idle | Phase::Waiting => State::Idle,
            Phase::Halted => State::Halted,
            _ => State::Processing,
        }
    }

    /// Takes the outcome of the operation asked for last and answers with
    /// the operation to perform next, as [`ControlLoopView::next`] says.
    /// Where `event` is not the outcome that the loop waits for, the loop
    /// stays as it is and the answer is `None`.
    pub fn step(&mut self, event: Event) -> (reaction: Option<Reaction>)
        ensures
            match old(self)@.next(event@) {
                Some((state, expected)) => final(self)@ == state && reaction.is_some()
                    && reaction.unwrap()@ == expected,
                None => final(self)@ == old(self)@ && reaction.is_none(),
            },
    {
        let mut phase = Phase::Halted;
        core::mem::swap(&mut self.phase, &mut phase);
        match (phase, event) {
            (Phase::Booting, Event::BusInit(Ok(_))) => {
                self.phase = Phase::BootReport;
                Some(Reaction { action: Action::PrintNext(start_message()), log: None })
            },
            (Phase::Booting, Event::BusInit(Err(error))) => {
                self.phase = Phase::BootReport;
                Some(
                    Reaction {
                        action: Action::PrintNext(init_fault_message(&error)),
                        log: bus_fault_entry(&error),
                    },
                )
            },
            (Phase::BootReport, Event::Displayed(Ok(_))) => {
                self.phase = Phase::Idle;
                Some(Reaction { action: Action::Poll, log: None })
            },
            (Phase::BootReport, Event::Displayed(Err(error))) => {
                self.phase = Phase::Halted;
                Some(Reaction { action: Action::Halt(Fault::Display(error)), log: None })
            },
            (Phase::Idle, Event::Polled(pending)) => {
                if pending {
                    self.phase = Phase::Reading;
                    Some(Reaction { action: Action::Read, log: None })
                } else {
                    self.phase = Phase::Waiting;
                    Some(Reaction { action: Action::Wait(POLL_QUANTUM), log: None })
                }
            },
            (Phase::Waiting, Event::Waited) => {
                self.phase = Phase::Idle;
                Some(Reaction { action: Action::Poll, log: None })
            },
            (Phase::Reading, Event::Received(Ok(frame))) => {
                let action = Action::PrintAtPosition(received_message(&frame), status_point());
                let log = Some(LogEntry { level: LogLevel::Info, text: received_message(&frame) });
                self.phase = Phase::Announcing(frame);
                Some(Reaction { action, log })
            },
            (Phase::Reading, Event::Received(Err(error))) => {
                self.phase = Phase::ReportingReadFault;
                Some(
                    Reaction {
                        action: Action::PrintAtPosition(read_fault_message(&error), status_point()),
                        log: bus_fault_entry(&error),
                    },
                )
            },
            (Phase::Announcing(frame), Event::Displayed(outcome)) => {
                let log = display_entry(outcome);
                match reply_frame(self.counter, &frame) {
                    Ok(reply) => {
                        self.phase = Phase::Sending;
                        Some(Reaction { action: Action::Send(reply), log })
                    },
                    Err(error) => {
                        self.phase = Phase::Halted;
                        Some(Reaction { action: Action::Halt(Fault::IdentifierRange(error)), log })
                    },
                }
            },
            (Phase::Sending, Event::Sent(Ok(_))) => {
                self.counter.advance();
                self.phase = Phase::Idle;
                Some(Reaction { action: Action::Poll, log: None })
            },
            (Phase::Sending, Event::Sent(Err(error))) => {
                let action = Action::PrintAtPosition(send_fault_message(&error), status_point());
                let log = bus_fault_entry(&error);
                self.phase = Phase::ReportingSendFault(error);
                Some(Reaction { action, log })
            },
            (Phase::ReportingReadFault, Event::Displayed(outcome)) => {
                self.phase = Phase::BackingOff;
                Some(Reaction { action: Action::Wait(BACKOFF_QUANTUM), log: display_entry(outcome) })
            },
            (Phase::ReportingSendFault(error), Event::Displayed(outcome)) => {
                let log = display_entry(outcome);
                match self.policy {
                    SendFaultPolicy::Halt => {
                        self.phase = Phase::Halted;
                        Some(Reaction { action: Action::Halt(Fault::Send(error)), log })
                    },
                    SendFaultPolicy::Recover => {
                        self.phase = Phase::BackingOff;
                        Some(Reaction { action: Action::Wait(BACKOFF_QUANTUM), log })
                    },
                }
            },
            (Phase::BackingOff, Event::Waited) => {
                self.phase = Phase::Idle;
                Some(Reaction { action: Action::Poll, log: None })
            },
            (phase, _) => {
                self.phase = phase;
                None
            },
        }
    }
}

} // verus!
