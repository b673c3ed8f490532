//! What holds of every run of the control loop, proved from its transition
//! function.

use crate::control::ControlLoopView;
use crate::control::PhaseView;
use crate::control::SendFaultPolicy;
use crate::control::State;
use crate::control::BACKOFF_QUANTUM;
use crate::control::POLL_QUANTUM;
use crate::display::status_position;
use crate::error::IdentifierRangeError;
use crate::event::ActionView;
use crate::event::EventView;
use crate::event::FaultView;
use crate::frame::FrameId;
use crate::frame::FrameView;
use crate::frame::STANDARD_ID_MAX;
use crate::reply::reply_data;
use crate::reply::ReplyCounter;
use crate::text::init_fault_text;
use crate::text::read_fault_text;
use crate::text::received_text;
use crate::text::send_fault_text;
use crate::text::start_text;
use vstd::prelude::*;

verus! {

impl ControlLoopView {
    /// Feeds `events` to the loop in order: the state after the last of
    /// them and the actions asked for on the way, or `None` if one of them
    /// is not the outcome that the loop waits for.
    pub open spec fn run(self, events: Seq<EventView>) -> Option<(ControlLoopView, Seq<ActionView>)>
        decreases events.len(),
    {
        if events.len() == 0 {
            Some((self, Seq::empty()))
        } else {
            match self.next(events[0]) {
                None => None,
                Some((state, reaction)) => match state.run(events.drop_first()) {
                    None => None,
                    Some((last, actions)) => Some((last, seq![reaction.action] + actions)),
                },
            }
        }
    }

    /// The loop polling, with its counter at `counter`.
    pub open spec fn idle_at(self, counter: ReplyCounter) -> ControlLoopView {
        ControlLoopView { phase: PhaseView::Idle, counter, policy: self.policy }
    }

    /// Serves `exchanges` one after the other: the state after the last.
    pub open spec fn serve(self, exchanges: Seq<Exchange>) -> Option<ControlLoopView>
        decreases exchanges.len(),
    {
        if exchanges.len() == 0 {
            Some(self)
        } else {
            match self.serve(exchanges.drop_last()) {
                None => None,
                Some(state) => match state.run(exchanges.last().events()) {
                    None => None,
                    Some((last, _)) => Some(last),
                },
            }
        }
    }
}

/// One successful iteration of the loop, by what comes in: the frame that
/// was pending, and the outcome of showing its status text.
pub struct Exchange {
    pub frame: FrameView,
    pub shown: Result<(), Seq<char>>,
}

impl Exchange {
    /// The events of the iteration: a frame is pending, it is read, its
    /// status text is shown or not, and the reply is sent.
    pub open spec fn events(self) -> Seq<EventView> {
        seq![
            EventView::Polled(true),
            EventView::Received(Ok(self.frame)),
            EventView::Displayed(self.shown),
            EventView::Sent(Ok(())),
        ]
    }

    /// The reply that is due while the counter stands at `counter`.
    pub open spec fn reply(self, counter: ReplyCounter) -> FrameView {
        FrameView { id: FrameId::Standard(counter.value), data: reply_data(self.frame.data) }
    }

    /// The actions of the iteration while the counter stands at `counter`:
    /// read, show the status text on the status line, send the reply, poll
    /// again.
    pub open spec fn actions(self, counter: ReplyCounter) -> Seq<ActionView> {
        seq![
            ActionView::Read,
            ActionView::PrintAtPosition(received_text(self.frame), status_position()),
            ActionView::Send(self.reply(counter)),
            ActionView::Poll,
        ]
    }
}

/// Running a sequence of events is running its first event and then the
/// rest.
proof fn lemma_run_unfold(state: ControlLoopView, events: Seq<EventView>)
    requires
        events.len() > 0,
    ensures
        state.run(events) == match state.next(events[0]) {
            None => None,
            Some((next, reaction)) => match next.run(events.drop_first()) {
                None => None,
                Some((last, actions)) => Some((last, seq![reaction.action] + actions)),
            },
        },
{
}

/// The counter moves only when a reply has been sent, and then by one,
/// modulo 2^16. Every other event leaves it as it is: a frame that could not
/// be read, a reply that could not be sent, a text that could not be shown.
/// The policy never changes.
pub proof fn lemma_counter_moves_on_sent_reply(state: ControlLoopView, event: EventView)
    requires
        state.next(event) is Some,
    ensures
        state.next(event).unwrap().0.policy == state.policy,
        state.phase is Sending && event is Sent && event->Sent_0 is Ok
            ==> state.next(event).unwrap().0.counter == state.counter.next()
            && state.next(event).unwrap().0.counter.value == (state.counter.value + 1) % 0x1_0000,
        !(state.phase is Sending && event is Sent && event->Sent_0 is Ok)
            ==> state.next(event).unwrap().0.counter == state.counter,
{
}

/// A frame that the loop asks to send carries the counter as its
/// identifier, and that is a valid standard identifier; its payload is the
/// reply to the frame that was received.
pub proof fn lemma_sent_frame(state: ControlLoopView, event: EventView)
    requires
        state.next(event) is Some,
        state.next(event).unwrap().1.action is Send,
    ensures
        state.phase is Announcing,
        state.counter.value <= STANDARD_ID_MAX,
        state.next(event).unwrap().1.action == ActionView::Send(
            FrameView {
                id: FrameId::Standard(state.counter.value),
                data: reply_data(state.phase->Announcing_0.data),
            },
        ),
        state.next(event).unwrap().1.action->Send_0.valid(),
{
}

/// The loop asks to read only in answer to a ready signal that showed a
/// pending frame. A signal that showed none is answered by the wait of one
/// poll quantum.
pub proof fn lemma_read_needs_pending(state: ControlLoopView, event: EventView)
    requires
        state.next(event) is Some,
    ensures
        state.next(event).unwrap().1.action is Read ==> state.phase == PhaseView::Idle && event
            == EventView::Polled(true),
        event == EventView::Polled(false) ==> state.next(event).unwrap().1.action
            == ActionView::Wait(POLL_QUANTUM),
{
}

/// The loop writes the line at the origin only while it boots, and from then
/// on only the status line: the boot message stays where it is, and each
/// status or fault text replaces the one before it.
pub proof fn lemma_texts_keep_to_their_lines(state: ControlLoopView, event: EventView)
    requires
        state.next(event) is Some,
    ensures
        state.next(event).unwrap().1.action is PrintNext ==> state.phase == PhaseView::Booting,
        state.next(event).unwrap().1.action is PrintAtPosition ==> state.phase.state()
            == State::Processing && state.next(event).unwrap().1.action->PrintAtPosition_1
            == status_position(),
{
}

/// A loop that has halted takes no event, and the loop halts only by
/// asking for it.
pub proof fn lemma_halt_is_final(state: ControlLoopView, event: EventView)
    ensures
        state.phase == PhaseView::Halted ==> state.next(event) is None,
        state.next(event) is Some ==> (state.next(event).unwrap().0.phase == PhaseView::Halted
            <==> state.next(event).unwrap().1.action is Halt),
{
}

/// While a frame is processed, a text that could not be shown changes
/// nothing but the log: the loop goes on as if it had been shown.
pub proof fn lemma_display_fault_passed_over(state: ControlLoopView, cause: Seq<char>)
    requires
        state.phase is Announcing || state.phase is ReportingReadFault
            || state.phase is ReportingSendFault,
    ensures
        state.next(EventView::Displayed(Err(cause))) is Some,
        state.next(EventView::Displayed(Ok(()))) is Some,
        state.next(EventView::Displayed(Err(cause))).unwrap().0 == state.next(
            EventView::Displayed(Ok(())),
        ).unwrap().0,
        state.next(EventView::Displayed(Err(cause))).unwrap().1.action == state.next(
            EventView::Displayed(Ok(())),
        ).unwrap().1.action,
{
}

/// Booting ends in polling whether or not the bus could be set up: the
/// loop shows the start text, or the text of the fault, at the origin and
/// then polls, with the counter as it was made.
pub proof fn lemma_boot_reaches_idle(state: ControlLoopView, init: Result<(), Seq<char>>)
    requires
        state.phase == PhaseView::Booting,
    ensures
        state.run(seq![EventView::BusInit(init), EventView::Displayed(Ok(()))]) == Some(
            (
                state.idle_at(state.counter),
                seq![
                    ActionView::PrintNext(
                        match init {
                            Ok(_) => start_text(),
                            Err(cause) => init_fault_text(cause),
                        },
                    ),
                    ActionView::Poll,
                ],
            ),
        ),
{
    let events = seq![EventView::BusInit(init), EventView::Displayed(Ok(()))];
    let rest1 = events.drop_first();
    let rest2 = rest1.drop_first();
    let s1 = state.next(events[0]).unwrap().0;
    let s2 = s1.next(rest1[0]).unwrap().0;
    assert(rest2.len() == 0);
    assert(s2.run(rest2) == Some((s2, Seq::<ActionView>::empty())));
    lemma_run_unfold(s1, rest1);
    lemma_run_unfold(state, events);
    assert(state.run(events).unwrap().1 =~= seq![
        ActionView::PrintNext(
            match init {
                Ok(_) => start_text(),
                Err(cause) => init_fault_text(cause),
            },
        ),
        ActionView::Poll,
    ]);
}

/// With no frame pending the loop waits for one poll quantum and polls
/// again, and nothing else changes.
pub proof fn lemma_idle_poll_waits(state: ControlLoopView)
    requires
        state.phase == PhaseView::Idle,
    ensures
        state.run(seq![EventView::Polled(false), EventView::Waited]) == Some(
            (state, seq![ActionView::Wait(POLL_QUANTUM), ActionView::Poll]),
        ),
{
    let events = seq![EventView::Polled(false), EventView::Waited];
    let rest1 = events.drop_first();
    let rest2 = rest1.drop_first();
    let s1 = state.next(events[0]).unwrap().0;
    let s2 = s1.next(rest1[0]).unwrap().0;
    assert(rest2.len() == 0);
    assert(s2.run(rest2) == Some((s2, Seq::<ActionView>::empty())));
    lemma_run_unfold(s1, rest1);
    lemma_run_unfold(state, events);
    assert(state.run(events).unwrap().1 =~= seq![ActionView::Wait(POLL_QUANTUM), ActionView::Poll]);
}

/// One successful iteration: from polling with the counter on a standard
/// identifier, the loop reads the frame, shows its status text, sends the
/// reply under the counter as identifier, and polls again with the counter
/// one higher.
pub proof fn lemma_exchange(state: ControlLoopView, exchange: Exchange)
    requires
        state.phase == PhaseView::Idle,
        state.counter.value <= STANDARD_ID_MAX,
    ensures
        state.run(exchange.events()) == Some(
            (state.idle_at(state.counter.next()), exchange.actions(state.counter)),
        ),
        state.counter.next().value == state.counter.value + 1,
        exchange.reply(state.counter).id.valid(),
{
    let events = exchange.events();
    let rest1 = events.drop_first();
    let rest2 = rest1.drop_first();
    let rest3 = rest2.drop_first();
    let rest4 = rest3.drop_first();
    let s1 = state.next(events[0]).unwrap().0;
    let s2 = s1.next(rest1[0]).unwrap().0;
    let s3 = s2.next(rest2[0]).unwrap().0;
    let s4 = s3.next(rest3[0]).unwrap().0;
    assert(rest4.len() == 0);
    assert(s4.run(rest4) == Some((s4, Seq::<ActionView>::empty())));
    lemma_run_unfold(s3, rest3);
    lemma_run_unfold(s2, rest2);
    lemma_run_unfold(s1, rest1);
    lemma_run_unfold(state, events);
    assert(state.run(events).unwrap().1 =~= exchange.actions(state.counter));
}

/// Consecutive successful iterations: as long as the counter stays on
/// standard identifiers, each iteration leaves the loop polling with the
/// counter one higher. From a counter at `c` that holds for `0x800 - c`
/// iterations in a row.
pub proof fn lemma_consecutive_exchanges(state: ControlLoopView, exchanges: Seq<Exchange>)
    requires
        state.phase == PhaseView::Idle,
        state.counter.value + exchanges.len() <= STANDARD_ID_MAX + 1,
    ensures
        state.serve(exchanges) == Some(
            state.idle_at(
                ReplyCounter { value: (state.counter.value + exchanges.len()) as u16 },
            ),
        ),
    decreases exchanges.len(),
{
    if exchanges.len() > 0 {
        lemma_consecutive_exchanges(state, exchanges.drop_last());
        let before = state.serve(exchanges.drop_last()).unwrap();
        lemma_exchange(before, exchanges.last());
    }
}

/// In a row of successful iterations that keeps the counter on standard
/// identifiers, the reply of iteration `i` goes out under the identifier
/// that is the first counter plus `i`, and that identifier is valid.
pub proof fn lemma_reply_identifiers(state: ControlLoopView, exchanges: Seq<Exchange>, i: int)
    requires
        state.phase == PhaseView::Idle,
        state.counter.value + exchanges.len() <= STANDARD_ID_MAX + 1,
        0 <= i < exchanges.len(),
    ensures
        state.serve(exchanges.take(i)) is Some,
        state.serve(exchanges.take(i)).unwrap().run(exchanges[i].events()) is Some,
        state.serve(exchanges.take(i)).unwrap().run(exchanges[i].events()).unwrap().1[2]
            == ActionView::Send(
            FrameView {
                id: FrameId::Standard((state.counter.value + i) as u16),
                data: reply_data(exchanges[i].frame.data),
            },
        ),
        FrameId::Standard((state.counter.value + i) as u16).valid(),
{
    lemma_consecutive_exchanges(state, exchanges.take(i));
    let before = state.serve(exchanges.take(i)).unwrap();
    lemma_exchange(before, exchanges[i]);
}

/// Once the counter has left the standard identifiers, the next frame is
/// still read and shown, but no reply is sent: the loop halts with the
/// range error, the counter unchanged.
pub proof fn lemma_range_exhausted(
    state: ControlLoopView,
    frame: FrameView,
    shown: Result<(), Seq<char>>,
)
    requires
        state.phase == PhaseView::Idle,
        state.counter.value > STANDARD_ID_MAX,
    ensures
        state.run(
            seq![
                EventView::Polled(true),
                EventView::Received(Ok(frame)),
                EventView::Displayed(shown),
            ],
        ) == Some(
            (
                ControlLoopView {
                    phase: PhaseView::Halted,
                    counter: state.counter,
                    policy: state.policy,
                },
                seq![
                    ActionView::Read,
                    ActionView::PrintAtPosition(received_text(frame), status_position()),
                    ActionView::Halt(
                        FaultView::IdentifierRange(
                            IdentifierRangeError { value: state.counter.value },
                        ),
                    ),
                ],
            ),
        ),
{
    let events = seq![
        EventView::Polled(true),
        EventView::Received(Ok(frame)),
        EventView::Displayed(shown),
    ];
    let rest1 = events.drop_first();
    let rest2 = rest1.drop_first();
    let rest3 = rest2.drop_first();
    let s1 = state.next(events[0]).unwrap().0;
    let s2 = s1.next(rest1[0]).unwrap().0;
    let s3 = s2.next(rest2[0]).unwrap().0;
    assert(rest3.len() == 0);
    assert(s3.run(rest3) == Some((s3, Seq::<ActionView>::empty())));
    lemma_run_unfold(s2, rest2);
    lemma_run_unfold(s1, rest1);
    lemma_run_unfold(state, events);
    assert(state.run(events).unwrap().1 =~= seq![
        ActionView::Read,
        ActionView::PrintAtPosition(received_text(frame), status_position()),
        ActionView::Halt(
            FaultView::IdentifierRange(IdentifierRangeError { value: state.counter.value }),
        ),
    ]);
}

/// A frame that could not be read: the loop shows the fault on the status
/// line, waits for the backoff quantum and only then polls again, with the
/// counter unchanged.
pub proof fn lemma_read_fault_backs_off(
    state: ControlLoopView,
    cause: Seq<char>,
    shown: Result<(), Seq<char>>,
)
    requires
        state.phase == PhaseView::Idle,
    ensures
        state.run(
            seq![
                EventView::Polled(true),
                EventView::Received(Err(cause)),
                EventView::Displayed(shown),
                EventView::Waited,
            ],
        ) == Some(
            (
                state,
                seq![
                    ActionView::Read,
                    ActionView::PrintAtPosition(read_fault_text(cause), status_position()),
                    ActionView::Wait(BACKOFF_QUANTUM),
                    ActionView::Poll,
                ],
            ),
        ),
{
    let events = seq![
        EventView::Polled(true),
        EventView::Received(Err(cause)),
        EventView::Displayed(shown),
        EventView::Waited,
    ];
    let rest1 = events.drop_first();
    let rest2 = rest1.drop_first();
    let rest3 = rest2.drop_first();
    let rest4 = rest3.drop_first();
    let s1 = state.next(events[0]).unwrap().0;
    let s2 = s1.next(rest1[0]).unwrap().0;
    let s3 = s2.next(rest2[0]).unwrap().0;
    let s4 = s3.next(rest3[0]).unwrap().0;
    assert(rest4.len() == 0);
    assert(s4.run(rest4) == Some((s4, Seq::<ActionView>::empty())));
    lemma_run_unfold(s3, rest3);
    lemma_run_unfold(s2, rest2);
    lemma_run_unfold(s1, rest1);
    lemma_run_unfold(state, events);
    assert(state.run(events).unwrap().1 =~= seq![
        ActionView::Read,
        ActionView::PrintAtPosition(read_fault_text(cause), status_position()),
        ActionView::Wait(BACKOFF_QUANTUM),
        ActionView::Poll,
    ]);
}

/// A reply that could not be sent: the loop shows the fault on the status
/// line and then follows its policy. It either halts with the fault, or
/// waits for the backoff quantum as after a read fault. Either way the
/// counter is unchanged.
pub proof fn lemma_send_fault_follows_policy(
    state: ControlLoopView,
    exchange: Exchange,
    cause: Seq<char>,
    shown: Result<(), Seq<char>>,
)
    requires
        state.phase == PhaseView::Idle,
        state.counter.value <= STANDARD_ID_MAX,
    ensures
        state.run(
            seq![
                EventView::Polled(true),
                EventView::Received(Ok(exchange.frame)),
                EventView::Displayed(exchange.shown),
                EventView::Sent(Err(cause)),
                EventView::Displayed(shown),
            ],
        ) == Some(
            (
                ControlLoopView {
                    phase: match state.policy {
                        SendFaultPolicy::Halt => PhaseView::Halted,
                        SendFaultPolicy::Recover => PhaseView::BackingOff,
                    },
                    counter: state.counter,
                    policy: state.policy,
                },
                seq![
                    ActionView::Read,
                    ActionView::PrintAtPosition(received_text(exchange.frame), status_position()),
                    ActionView::Send(exchange.reply(state.counter)),
                    ActionView::PrintAtPosition(send_fault_text(cause), status_position()),
                    match state.policy {
                        SendFaultPolicy::Halt => ActionView::Halt(FaultView::Send(cause)),
                        SendFaultPolicy::Recover => ActionView::Wait(BACKOFF_QUANTUM),
                    },
                ],
            ),
        ),
{
    let events = seq![
        EventView::Polled(true),
        EventView::Received(Ok(exchange.frame)),
        EventView::Displayed(exchange.shown),
        EventView::Sent(Err(cause)),
        EventView::Displayed(shown),
    ];
    let rest1 = events.drop_first();
    let rest2 = rest1.drop_first();
    let rest3 = rest2.drop_first();
    let rest4 = rest3.drop_first();
    let rest5 = rest4.drop_first();
    let s1 = state.next(events[0]).unwrap().0;
    let s2 = s1.next(rest1[0]).unwrap().0;
    let s3 = s2.next(rest2[0]).unwrap().0;
    let s4 = s3.next(rest3[0]).unwrap().0;
    let s5 = s4.next(rest4[0]).unwrap().0;
    assert(rest5.len() == 0);
    assert(s5.run(rest5) == Some((s5, Seq::<ActionView>::empty())));
    lemma_run_unfold(s4, rest4);
    lemma_run_unfold(s3, rest3);
    lemma_run_unfold(s2, rest2);
    lemma_run_unfold(s1, rest1);
    lemma_run_unfold(state, events);
    assert(state.run(events).unwrap().1 =~= seq![
        ActionView::Read,
        ActionView::PrintAtPosition(received_text(exchange.frame), status_position()),
        ActionView::Send(exchange.reply(state.counter)),
        ActionView::PrintAtPosition(send_fault_text(cause), status_position()),
        match state.policy {
            SendFaultPolicy::Halt => ActionView::Halt(FaultView::Send(cause)),
            SendFaultPolicy::Recover => ActionView::Wait(BACKOFF_QUANTUM),
        },
    ]);
}

/// How far the loop has come since it last polled: every step either leads
/// back to polling or leads further on.
pub open spec fn progress(phase: PhaseView) -> nat {
    match phase {
        PhaseView::Booting => 0,
        PhaseView::BootReport => 1,
        PhaseView::Idle => 2,
        PhaseView::Waiting => 3,
        PhaseView::Reading => 3,
        PhaseView::Announcing(_) => 4,
        PhaseView::ReportingReadFault => 4,
        PhaseView::Sending => 5,
        PhaseView::ReportingSendFault(_) => 6,
        PhaseView::BackingOff => 7,
        PhaseView::Halted => 8,
    }
}

/// The number of reads that `actions` ask for.
pub open spec fn reads(actions: Seq<ActionView>) -> nat
    decreases actions.len(),
{
    if actions.len() == 0 {
        0
    } else if actions[0] is Read {
        1 + reads(actions.drop_first())
    } else {
        reads(actions.drop_first())
    }
}

/// The number of frames that `actions` ask to send.
pub open spec fn sends(actions: Seq<ActionView>) -> nat
    decreases actions.len(),
{
    if actions.len() == 0 {
        0
    } else if actions[0] is Send {
        1 + sends(actions.drop_first())
    } else {
        sends(actions.drop_first())
    }
}

/// None of `actions` asks to poll.
pub open spec fn poll_free(actions: Seq<ActionView>) -> bool {
    forall|i: int| 0 <= i < actions.len() ==> !(#[trigger] actions[i] is Poll)
}

/// The loop never goes back but to poll: a step either asks to poll, and
/// then the loop is idle, or takes the loop further on in its iteration.
pub proof fn lemma_step_advances(state: ControlLoopView, event: EventView)
    requires
        state.next(event) is Some,
    ensures
        state.next(event).unwrap().1.action is Poll ==> state.next(event).unwrap().0.phase
            == PhaseView::Idle,
        !(state.next(event).unwrap().1.action is Poll) ==> progress(
            state.next(event).unwrap().0.phase,
        ) > progress(state.phase),
{
}

proof fn lemma_reads_and_sends_by_progress(state: ControlLoopView, events: Seq<EventView>)
    requires
        state.run(events) is Some,
        poll_free(state.run(events).unwrap().1),
    ensures
        reads(state.run(events).unwrap().1) <= 1,
        sends(state.run(events).unwrap().1) <= 1,
        progress(state.phase) > progress(PhaseView::Idle) ==> reads(state.run(events).unwrap().1)
            == 0,
        progress(state.phase) >= progress(PhaseView::Sending) ==> sends(
            state.run(events).unwrap().1,
        ) == 0,
    decreases events.len(),
{
    if events.len() > 0 {
        let actions = state.run(events).unwrap().1;
        let (after, reaction) = state.next(events[0]).unwrap();
        let rest = after.run(events.drop_first()).unwrap().1;
        assert(actions == seq![reaction.action] + rest);
        assert(actions[0] == reaction.action);
        assert(actions.drop_first() =~= rest);
        assert forall|i: int| 0 <= i < rest.len() implies !(#[trigger] rest[i] is Poll) by {
            assert(rest[i] == actions[i + 1]);
        }
        lemma_step_advances(state, events[0]);
        lemma_reads_and_sends_by_progress(after, events.drop_first());
    }
}

/// Message processing is strictly sequential: between two polls the loop
/// reads at most one frame and sends at most one reply.
pub proof fn lemma_one_frame_per_iteration(state: ControlLoopView, events: Seq<EventView>)
    requires
        state.run(events) is Some,
        poll_free(state.run(events).unwrap().1),
    ensures
        reads(state.run(events).unwrap().1) <= 1,
        sends(state.run(events).unwrap().1) <= 1,
{
    lemma_reads_and_sends_by_progress(state, events);
}

} // verus!
