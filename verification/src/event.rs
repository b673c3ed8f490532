//! What passes between the control loop and the hardware around it: the
//! outcome of an operation comes in as an [`Event`], the next operation goes
//! out as an [`Action`].

use crate::display::Point;
use crate::error::BusError;
use crate::error::DisplayError;
use crate::error::IdentifierRangeError;
use crate::frame::Frame;
use crate::frame::FrameView;
use vstd::prelude::*;

verus! {

/// The outcome of the operation that the control loop asked for last.
#[derive(Debug, PartialEq, Eq)]
pub enum Event {
    /// The bus transceiver was set up, or could not be.
    BusInit(Result<(), BusError>),
    /// The text was shown, or could not be.
    Displayed(Result<(), DisplayError>),
    /// The ready signal was read: whether a frame is pending.
    Polled(bool),
    /// One pending frame was drained, or the transceiver reported a fault.
    Received(Result<Frame, BusError>),
    /// The frame was transmitted, or the transceiver reported a fault.
    Sent(Result<(), BusError>),
    /// The wait is over.
    Waited,
}

/// An [`Event`] as mathematical values; an error stands as the description
/// of its cause.
pub enum EventView {
    BusInit(Result<(), Seq<char>>),
    Displayed(Result<(), Seq<char>>),
    Polled(bool),
    Received(Result<FrameView, Seq<char>>),
    Sent(Result<(), Seq<char>>),
    Waited,
}

/// The outcome of a bus operation that returns nothing, as mathematical
/// values.
pub open spec fn bus_outcome(outcome: Result<(), BusError>) -> Result<(), Seq<char>> {
    match outcome {
        Ok(_) => Ok(()),
        Err(error) => Err(error@),
    }
}

/// The outcome of a display operation, as mathematical values.
pub open spec fn display_outcome(outcome: Result<(), DisplayError>) -> Result<(), Seq<char>> {
    match outcome {
        Ok(_) => Ok(()),
        Err(error) => Err(error@),
    }
}

impl View for Event {
    type V = EventView;

    open spec fn view(&self) -> EventView {
        match *self {
            Event::BusInit(outcome) => EventView::BusInit(bus_outcome(outcome)),
            Event::Displayed(outcome) => EventView::Displayed(display_outcome(outcome)),
            Event::Polled(pending) => EventView::Polled(pending),
            Event::Received(Ok(frame)) => EventView::Received(Ok(frame@)),
            Event::Received(Err(error)) => EventView::Received(Err(error@)),
            Event::Sent(outcome) => EventView::Sent(bus_outcome(outcome)),
            Event::Waited => EventView::Waited,
        }
    }
}

/// Why the control loop stopped for good.
#[derive(Debug, PartialEq, Eq)]
pub enum Fault {
    /// The boot message could not be shown.
    Display(DisplayError),
    /// A reply could not be sent, and the loop was set up to stop on that.
    Send(BusError),
    /// The reply counter is no standard identifier any more.
    IdentifierRange(IdentifierRangeError),
}

/// A [`Fault`] as mathematical values.
pub enum FaultView {
    Display(Seq<char>),
    Send(Seq<char>),
    IdentifierRange(IdentifierRangeError),
}

impl View for Fault {
    type V = FaultView;

    open spec fn view(&self) -> FaultView {
        match *self {
            Fault::Display(error) => FaultView::Display(error@),
            Fault::Send(error) => FaultView::Send(error@),
            Fault::IdentifierRange(error) => FaultView::IdentifierRange(error),
        }
    }
}

/// The operation that the control loop asks for next.
#[derive(Debug, PartialEq, Eq)]
pub enum Action {
    /// Show the text at the origin of the panel.
    PrintNext(String),
    /// Show the text at the given position.
    PrintAtPosition(String, Point),
    /// Read the ready signal.
    Poll,
    /// Drain one pending frame.
    Read,
    /// Transmit the frame.
    Send(Frame),
    /// Wait for the given number of time units.
    Wait(u32),
    /// Stop: the loop takes no further event.
    Halt(Fault),
}

/// An [`Action`] as mathematical values.
pub enum ActionView {
    PrintNext(Seq<char>),
    PrintAtPosition(Seq<char>, Point),
    Poll,
    Read,
    Send(FrameView),
    Wait(u32),
    Halt(FaultView),
}

impl View for Action {
    type V = ActionView;

    open spec fn view(&self) -> ActionView {
        match *self {
            Action::PrintNext(text) => ActionView::PrintNext(text@),
            Action::PrintAtPosition(text, point) => ActionView::PrintAtPosition(text@, point),
            Action::Poll => ActionView::Poll,
            Action::Read => ActionView::Read,
            Action::Send(frame) => ActionView::Send(frame@),
            Action::Wait(units) => ActionView::Wait(units),
            Action::Halt(fault) => ActionView::Halt(fault@),
        }
    }
}

/// How grave a log entry is.
#[derive(Clone, Copy, Debug, PartialEq, Eq, Structural)]
pub enum LogLevel {
    /// A frame was processed.
    Info,
    /// The bus or the display failed.
    Error,
}

/// One line for the log stream.
#[derive(Debug, PartialEq, Eq)]
pub struct LogEntry {
    pub level: LogLevel,
    pub text: String,
}

/// A [`LogEntry`] as mathematical values.
pub struct LogEntryView {
    pub level: LogLevel,
    pub text: Seq<char>,
}

impl View for LogEntry {
    type V = LogEntryView;

    open spec fn view(&self) -> LogEntryView {
        LogEntryView { level: self.level, text: self.text@ }
    }
}

/// The log line that goes with an action, if there is one, as mathematical
/// values.
pub open spec fn log_view(log: Option<LogEntry>) -> Option<LogEntryView> {
    match log {
        Some(entry) => Some(entry@),
        None => None,
    }
}

/// The answer of the control loop to an event: the operation to perform
/// next, and at most one line to log.
#[derive(Debug, PartialEq, Eq)]
pub struct Reaction {
    pub action: Action,
    pub log: Option<LogEntry>,
}

/// A [`Reaction`] as mathematical values.
pub struct ReactionView {
    pub action: ActionView,
    pub log: Option<LogEntryView>,
}

impl View for Reaction {
    type V = ReactionView;

    open spec fn view(&self) -> ReactionView {
        ReactionView { action: self.action@, log: log_view(self.log) }
    }
}

} // verus!
