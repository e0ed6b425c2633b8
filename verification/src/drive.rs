//! The loop that shows one color until it is interrupted or a deadline passes.

use vstd::prelude::*;
use crate::color::Color;
use crate::packet::{build_header_packet, build_solid_packet, check_sent, ShortTransfer, PACKET_SIZE};
use crate::work::{
    Action, ActionView, Event, EventView, Fault, FaultView, Transfer, Turn, TurnView,
    REFRESH_INTERVAL_MICROS,
};

verus! {

/// Where in a round the loop is, by the work that it waits for.
#[derive(Debug, Clone, Copy, PartialEq, Eq, Structural)]
pub enum DrivePoint {
    CheckRunning,
    CheckDeadline,
    SendHeader,
    SendData,
    Sleeping,
}

/// The loop that shows one color.
#[derive(Debug, Clone, Copy, PartialEq, Eq, Structural)]
pub struct Drive {
    pub color: Color,
    /// When to stop, in nanoseconds since the Unix epoch.
    pub deadline: Option<i128>,
    pub point: DrivePoint,
}

impl View for Drive {
    type V = Drive;

    open spec fn view(&self) -> Drive {
        *self
    }
}

/// The work that a point of the loop waits for.
pub open spec fn drive_action(d: Drive) -> ActionView {
    match d.point {
        DrivePoint::CheckRunning => ActionView::CheckRunning,
        DrivePoint::CheckDeadline => ActionView::ReadClock,
        DrivePoint::SendHeader => ActionView::Send(crate::packet::header_packet()),
        DrivePoint::SendData => ActionView::Send(crate::packet::solid_packet(d.color, d.color)),
        DrivePoint::Sleeping => ActionView::Sleep(REFRESH_INTERVAL_MICROS),
    }
}

/// The turn that goes on at `point`.
pub open spec fn drive_at(d: Drive, point: DrivePoint) -> TurnView<Drive> {
    let state = Drive { point, ..d };
    TurnView::Next { state, log: None, action: drive_action(state) }
}

pub open spec fn drive_end(result: Result<(), FaultView>) -> TurnView<Drive> {
    TurnView::End { log: None, result }
}

/// The turn after a packet was sent: on to `point`, if all of it was written.
pub open spec fn drive_sent(d: Drive, sent: usize, point: DrivePoint) -> TurnView<Drive> {
    if sent == PACKET_SIZE {
        drive_at(d, point)
    } else {
        drive_end(Err(FaultView::ShortTransfer(ShortTransfer { sent, expected: PACKET_SIZE })))
    }
}

/// A round: the running flag, the deadline if there is one, the header, the display packet, the
/// pause. An event that is no answer to the work at hand has the loop ask again.
pub open spec fn drive_next(d: Drive, event: EventView) -> TurnView<Drive> {
    match (d.point, event) {
        (DrivePoint::CheckRunning, EventView::Running(running)) => if !running {
            drive_end(Ok(()))
        } else if d.deadline is Some {
            drive_at(d, DrivePoint::CheckDeadline)
        } else {
            drive_at(d, DrivePoint::SendHeader)
        },
        (DrivePoint::CheckDeadline, EventView::Clock(now)) => if d.deadline is Some && now
            >= d.deadline->0 {
            drive_end(Ok(()))
        } else {
            drive_at(d, DrivePoint::SendHeader)
        },
        (DrivePoint::SendHeader, EventView::Sent(sent)) => drive_sent(d, sent, DrivePoint::SendData),
        (DrivePoint::SendData, EventView::Sent(sent)) => drive_sent(d, sent, DrivePoint::Sleeping),
        (DrivePoint::SendHeader, EventView::Failed(reason)) => drive_end(
            Err(FaultView::Work(reason)),
        ),
        (DrivePoint::SendData, EventView::Failed(reason)) => drive_end(Err(FaultView::Work(reason))),
        (DrivePoint::Sleeping, EventView::Slept) => drive_at(d, DrivePoint::CheckRunning),
        _ => drive_at(d, d.point),
    }
}

/// Starts the loop that shows `color` on both diodes until it is interrupted or `deadline` has
/// come.
pub fn drive_lights(color: Color, deadline: Option<i128>) -> (d: Drive)
    ensures
        d == (Drive { color, deadline, point: DrivePoint::CheckRunning }),
        d.color == color,
        d.deadline == deadline,
        d.point is CheckRunning,
{
    Drive { color, deadline, point: DrivePoint::CheckRunning }
}

impl Drive {
    /// The work that the loop waits for.
    pub fn action(&self) -> (a: Action)
        ensures
            a@ == drive_action(*self),
    {
        match self.point {
            DrivePoint::CheckRunning => Action::CheckRunning,
            DrivePoint::CheckDeadline => Action::ReadClock,
            DrivePoint::SendHeader => Action::Send(build_header_packet()),
            DrivePoint::SendData => Action::Send(build_solid_packet(self.color, self.color)),
            DrivePoint::Sleeping => Action::Sleep(REFRESH_INTERVAL_MICROS),
        }
    }

    fn go_to(self, point: DrivePoint) -> (t: Turn<Drive>)
        ensures
            t@ == drive_at(self, point),
    {
        let state = Drive { color: self.color, deadline: self.deadline, point };
        Turn::Next { state, log: None, action: state.action() }
    }

    fn after_send(self, sent: usize, point: DrivePoint) -> (t: Turn<Drive>)
        ensures
            t@ == drive_sent(self, sent, point),
    {
        match check_sent(sent, PACKET_SIZE) {
            Ok(()) => self.go_to(point),
            Err(e) => Turn::End { log: None, result: Err(Fault::ShortTransfer(e)) },
        }
    }

    /// Goes on after an event.
    pub fn step(self, event: Event) -> (t: Turn<Drive>)
        ensures
            t@ == drive_next(self, event@),
    {
        match (self.point, event) {
            (DrivePoint::CheckRunning, Event::Running(running)) => {
                if !running {
                    Turn::End { log: None, result: Ok(()) }
                } else if self.deadline.is_some() {
                    self.go_to(DrivePoint::CheckDeadline)
                } else {
                    self.go_to(DrivePoint::SendHeader)
                }
            },
            (DrivePoint::CheckDeadline, Event::Clock(now)) => {
                match self.deadline {
                    Some(deadline) => {
                        if now >= deadline {
                            Turn::End { log: None, result: Ok(()) }
                        } else {
                            self.go_to(DrivePoint::SendHeader)
                        }
                    },
                    None => self.go_to(DrivePoint::SendHeader),
                }
            },
            (DrivePoint::SendHeader, Event::Sent(sent)) => self.after_send(
                sent,
                DrivePoint::SendData,
            ),
            (DrivePoint::SendData, Event::Sent(sent)) => self.after_send(
                sent,
                DrivePoint::Sleeping,
            ),
            (DrivePoint::SendHeader, Event::Failed(reason)) => Turn::End {
                log: None,
                result: Err(Fault::Work(reason)),
            },
            (DrivePoint::SendData, Event::Failed(reason)) => Turn::End {
                log: None,
                result: Err(Fault::Work(reason)),
            },
            (DrivePoint::Sleeping, Event::Slept) => self.go_to(DrivePoint::CheckRunning),
            _ => self.go_to(self.point),
        }
    }
}

/// The state after the events, one after the other, or none if the loop ended on the way.
pub open spec fn drive_run(d: Drive, events: Seq<EventView>) -> Option<Drive>
    decreases events.len(),
{
    if events.len() == 0 {
        Some(d)
    } else {
        match drive_next(d, events[0]) {
            TurnView::Next { state, .. } => drive_run(state, events.skip(1)),
            TurnView::End { .. } => None,
        }
    }
}

/// However the loop got where it is, its color and its deadline are those it started with.
pub proof fn law_drive_keeps_color(d: Drive, events: Seq<EventView>)
    ensures
        drive_run(d, events) matches Some(e) ==> e.color == d.color && e.deadline == d.deadline,
    decreases events.len(),
{
    if events.len() > 0 {
        match drive_next(d, events[0]) {
            TurnView::Next { state, .. } => law_drive_keeps_color(state, events.skip(1)),
            TurnView::End { .. } => {},
        }
    }
}

/// A round that nothing disturbs sends the header, sends the display packet with the color on both
/// diodes, pauses, and begins anew.
pub proof fn law_drive_round(d: Drive, now: i128)
    requires
        d.point == DrivePoint::CheckRunning,
        d.deadline matches Some(deadline) ==> now < deadline,
    ensures
        ({
            let start = if d.deadline is Some {
                seq![EventView::Running(true), EventView::Clock(now)]
            } else {
                seq![EventView::Running(true)]
            };
            let sent = EventView::Sent(PACKET_SIZE);
            &&& drive_run(d, start) matches Some(at_header) && drive_action(at_header)
                == ActionView::Send(crate::packet::header_packet())
            &&& drive_run(d, start.push(sent)) matches Some(at_data) && drive_action(at_data)
                == ActionView::Send(crate::packet::solid_packet(d.color, d.color))
            &&& drive_run(d, start.push(sent).push(sent)) matches Some(asleep) && drive_action(
                asleep,
            ) == ActionView::Sleep(REFRESH_INTERVAL_MICROS)
            &&& drive_run(d, start.push(sent).push(sent).push(EventView::Slept)) == Some(d)
        }),
{
    let start = if d.deadline is Some {
        seq![EventView::Running(true), EventView::Clock(now)]
    } else {
        seq![EventView::Running(true)]
    };
    let sent = EventView::Sent(PACKET_SIZE);
    let at_header = Drive { point: DrivePoint::SendHeader, ..d };
    let at_data = Drive { point: DrivePoint::SendData, ..d };
    let asleep = Drive { point: DrivePoint::Sleeping, ..d };
    assert(drive_run(d, start) == Some(at_header)) by {
        reveal_with_fuel(drive_run, 3);
        assert(start.skip(1).len() == start.len() - 1);
        if d.deadline is Some {
            assert(start.skip(1)[0] == EventView::Clock(now));
        }
    }
    lemma_drive_push(d, start, sent);
    lemma_drive_push(d, start.push(sent), sent);
    lemma_drive_push(d, start.push(sent).push(sent), EventView::Slept);
    assert(drive_next(at_header, sent) == drive_at(at_header, DrivePoint::SendData));
    assert(drive_next(at_data, sent) == drive_at(at_data, DrivePoint::Sleeping));
    assert(drive_next(asleep, EventView::Slept) == drive_at(asleep, DrivePoint::CheckRunning));
}

/// One more event takes the state one turn further.
proof fn lemma_drive_push(d: Drive, events: Seq<EventView>, event: EventView)
    ensures
        drive_run(d, events.push(event)) == match drive_run(d, events) {
            Some(e) => match drive_next(e, event) {
                TurnView::Next { state, .. } => Some(state),
                TurnView::End { .. } => None,
            },
            None => None,
        },
    decreases events.len(),
{
    if events.len() == 0 {
        assert(events.push(event).skip(1) =~= Seq::empty());
        reveal_with_fuel(drive_run, 2);
    } else {
        assert(events.push(event).skip(1) =~= events.skip(1).push(event));
        match drive_next(d, events[0]) {
            TurnView::Next { state, .. } => lemma_drive_push(state, events.skip(1), event),
            TurnView::End { .. } => {},
        }
    }
}

/// All the transfers in the course of the events, in their order.
pub open spec fn drive_transfers(d: Drive, events: Seq<EventView>) -> Seq<Transfer>
    decreases events.len(),
{
    if events.len() == 0 {
        Seq::empty()
    } else {
        let before = events.drop_last();
        match drive_run(d, before) {
            Some(e) => match crate::work::transfer_of(drive_action(e), events.last()) {
                Some(transfer) => drive_transfers(d, before).push(transfer),
                None => drive_transfers(d, before),
            },
            None => drive_transfers(d, before),
        }
    }
}

/// How the loop ended in the course of the events, if it did. What comes after its end is passed
/// over.
pub open spec fn drive_result(d: Drive, events: Seq<EventView>) -> Option<Result<(), FaultView>>
    decreases events.len(),
{
    if events.len() == 0 {
        None
    } else {
        let before = events.drop_last();
        match drive_run(d, before) {
            Some(e) => match drive_next(e, events.last()) {
                TurnView::End { result, .. } => Some(result),
                TurnView::Next { .. } => None,
            },
            None => drive_result(d, before),
        }
    }
}

/// Headers and display packets of `color` take turns, the header first.
pub open spec fn alternate(transfers: Seq<Transfer>, color: Color) -> bool {
    forall|i: int|
        0 <= i < transfers.len() ==> (#[trigger] transfers[i]).packet == (if i % 2 == 0 {
            crate::packet::header_packet()
        } else {
            crate::packet::solid_packet(color, color)
        })
}

/// All but the last of the transfers are whole.
pub open spec fn whole_but_last(transfers: Seq<Transfer>) -> bool {
    forall|i: int| 0 <= i < transfers.len() - 1 ==> (#[trigger] transfers[i]).whole
}

/// A whole run of the loop, whatever happens in it. Its transfers are the header and the display
/// packet of its color in turn. The loop ends with an error if and only if a transfer is not
/// whole, which is then the last one; it ends well only after whole pairs of header and display
/// packet.
pub proof fn law_drive_transfers(d: Drive, events: Seq<EventView>)
    requires
        d.point == DrivePoint::CheckRunning,
    ensures
        ({
            let transfers = drive_transfers(d, events);
            let result = drive_result(d, events);
            &&& alternate(transfers, d.color)
            &&& whole_but_last(transfers)
            &&& (result matches Some(r) && r is Err) <==> transfers.len() > 0
                && !transfers.last().whole
            &&& result == Some(Ok::<(), FaultView>(())) ==> transfers.len() % 2 == 0
            &&& result is Some <==> drive_run(d, events) is None
        }),
{
    lemma_transfers(d, events);
}

proof fn lemma_transfers(d: Drive, events: Seq<EventView>)
    requires
        d.point == DrivePoint::CheckRunning,
    ensures
        ({
            let transfers = drive_transfers(d, events);
            let result = drive_result(d, events);
            &&& alternate(transfers, d.color)
            &&& whole_but_last(transfers)
            &&& match drive_run(d, events) {
                Some(e) => {
                    &&& result is None
                    &&& transfers.len() % 2 == (if e.point == DrivePoint::SendData {
                        1int
                    } else {
                        0
                    })
                    &&& transfers.len() > 0 ==> transfers.last().whole
                },
                None => {
                    &&& result is Some
                    &&& result->0 is Err <==> transfers.len() > 0 && !transfers.last().whole
                    &&& result->0 is Ok ==> transfers.len() % 2 == 0
                },
            }
        }),
    decreases events.len(),
{
    if events.len() > 0 {
        let before = events.drop_last();
        assert(before.push(events.last()) =~= events);
        lemma_transfers(d, before);
        lemma_drive_push(d, before, events.last());
        law_drive_keeps_color(d, before);
    }
}

/// Once the deadline has come nothing more is sent.
pub proof fn law_drive_stops_at_deadline(d: Drive, now: i128)
    requires
        d.point == DrivePoint::CheckRunning,
        d.deadline matches Some(deadline) && now >= deadline,
    ensures
        drive_next(d, EventView::Running(true)) matches TurnView::Next { state, action, .. }
            && action == ActionView::ReadClock && drive_next(state, EventView::Clock(now))
            == drive_end(Ok(())),
{
}

/// Without a deadline the loop ends well only when the running flag is cleared.
pub proof fn law_drive_ends_when_interrupted(d: Drive, event: EventView)
    requires
        d.deadline is None,
    ensures
        drive_next(d, event) == drive_end(Ok(())) <==> d.point == DrivePoint::CheckRunning && event
            == EventView::Running(false),
{
}

/// What each point of the loop asks for, in figures: the packets, and a pause of 55 milliseconds.
pub proof fn law_drive_asks_for(d: Drive)
    ensures
        d@ == d,
        d.point == DrivePoint::CheckRunning ==> drive_action(d) == ActionView::CheckRunning,
        d.point == DrivePoint::CheckDeadline ==> drive_action(d) == ActionView::ReadClock,
        d.point == DrivePoint::SendHeader ==> drive_action(d) == ActionView::Send(
            crate::packet::header_packet(),
        ),
        d.point == DrivePoint::SendData ==> drive_action(d) == ActionView::Send(
            crate::packet::solid_packet(d.color, d.color),
        ),
        d.point == DrivePoint::Sleeping ==> drive_action(d) == ActionView::Sleep(55_000),
{
}

/// Where an answer takes the loop. It goes on with the same color and deadline, logs nothing, and
/// asks for the work of the point it went to.
pub proof fn law_drive_goes_on(d: Drive, event: EventView)
    ensures
        drive_next(d, event) matches TurnView::Next { state, log, action } ==> {
            &&& state.color == d.color
            &&& state.deadline == d.deadline
            &&& log is None
            &&& action == drive_action(state)
            &&& state.point == match (d.point, event) {
                (DrivePoint::CheckRunning, EventView::Running(_)) => if d.deadline is Some {
                    DrivePoint::CheckDeadline
                } else {
                    DrivePoint::SendHeader
                },
                (DrivePoint::CheckDeadline, EventView::Clock(_)) => DrivePoint::SendHeader,
                (DrivePoint::SendHeader, EventView::Sent(_)) => DrivePoint::SendData,
                (DrivePoint::SendData, EventView::Sent(_)) => DrivePoint::Sleeping,
                (DrivePoint::Sleeping, EventView::Slept) => DrivePoint::CheckRunning,
                _ => d.point,
            }
        },
{
}

/// When the loop ends: well when it is interrupted or the deadline has come, badly when a packet
/// could not be sent or not all of its 64 bytes were written, and on no other event.
pub proof fn law_drive_ends(d: Drive, event: EventView)
    ensures
        drive_next(d, event) is End <==> {
            ||| d.point == DrivePoint::CheckRunning && event == EventView::Running(false)
            ||| d.point == DrivePoint::CheckDeadline && event is Clock && d.deadline is Some
                && event->Clock_0 >= d.deadline->0
            ||| (d.point == DrivePoint::SendHeader || d.point == DrivePoint::SendData) && (
            event is Failed || (event is Sent && event->Sent_0 != 64))
        },
        drive_next(d, event) matches TurnView::End { log, result } ==> {
            &&& log is None
            &&& result is Ok <==> event is Running || event is Clock
            &&& event matches EventView::Sent(sent) ==> result == Err::<(), FaultView>(
                FaultView::ShortTransfer(ShortTransfer { sent, expected: 64 }),
            )
            &&& event matches EventView::Failed(reason) ==> result == Err::<(), FaultView>(
                FaultView::Work(reason),
            )
        },
{
}

/// A run is made of turns: no events leave the loop where it is, one more takes it one turn
/// further, and after its end nothing does.
pub proof fn law_drive_run_is_made_of_turns(d: Drive, events: Seq<EventView>, event: EventView)
    ensures
        drive_run(d, Seq::<EventView>::empty()) == Some(d),
        drive_run(d, events) is None ==> drive_run(d, events.push(event)) is None,
        drive_run(d, events) matches Some(e) ==> {
            &&& drive_next(e, event) is End <==> drive_run(d, events.push(event)) is None
            &&& drive_next(e, event) matches TurnView::Next { state, .. } ==> drive_run(
                d,
                events.push(event),
            ) == Some(state)
        },
{
    lemma_drive_push(d, events, event);
}

} // verus!
