//! The command that shows one color in the foreground.

use vstd::prelude::*;
use vstd::string::StringExecFns;
use crate::color::{push_color, Color};
use crate::config::{Config, ConfigError, ConfigErrorView, ConfigView};
use crate::device::Model;
use crate::drive::{drive_lights, Drive, DrivePoint};
use crate::work::{supported, Action, ActionView, Event, EventView, Fault, FaultView, Turn, TurnView};

verus! {

/// The command, by what it waits for.
#[derive(Debug, Clone, Copy, PartialEq, Eq, Structural)]
pub enum Solid {
    Opening { color: Color },
    Installing { color: Color },
    Driving { drive: Drive },
}

impl View for Solid {
    type V = Solid;

    open spec fn view(&self) -> Solid {
        *self
    }
}

pub open spec fn driving_line(model: Model, color: Color) -> Seq<char> {
    "Driving "@ + crate::device::model_name(model) + " with solid #"@ + crate::color::color_hex(
        color,
    ) + ". Ctrl-C to stop."@
}

/// The work that the command waits for.
pub open spec fn solid_action(s: Solid) -> ActionView {
    match s {
        Solid::Opening { .. } => ActionView::OpenMic,
        Solid::Installing { .. } => ActionView::InstallSignalHandler,
        Solid::Driving { drive } => crate::drive::drive_action(drive),
    }
}

/// The microphone is opened, its protocol checked, the handler installed, and the color driven
/// without a deadline. An event that is no answer to the work at hand has the command ask again.
pub open spec fn solid_next(s: Solid, event: EventView) -> TurnView<Solid> {
    match (s, event) {
        (Solid::Opening { color }, EventView::Opened(model)) => if crate::work::is_supported(model) {
            TurnView::Next {
                state: Solid::Installing { color },
                log: Some(driving_line(model, color)),
                action: ActionView::InstallSignalHandler,
            }
        } else {
            TurnView::End { log: None, result: Err(FaultView::UnsupportedModel) }
        },
        (Solid::Installing { color }, EventView::HandlerInstalled) => {
            let drive = Drive { color, deadline: None, point: DrivePoint::CheckRunning };
            TurnView::Next {
                state: Solid::Driving { drive },
                log: None,
                action: crate::drive::drive_action(drive),
            }
        },
        (Solid::Opening { .. }, EventView::Failed(reason)) => TurnView::End {
            log: None,
            result: Err(FaultView::Work(reason)),
        },
        (Solid::Installing { .. }, EventView::Failed(reason)) => TurnView::End {
            log: None,
            result: Err(FaultView::Work(reason)),
        },
        (Solid::Driving { drive }, _) => match crate::drive::drive_next(drive, event) {
            TurnView::Next { state, log, action } => TurnView::Next {
                state: Solid::Driving { drive: state },
                log,
                action,
            },
            TurnView::End { log, result } => TurnView::End {
                log: if result is Ok {
                    Some("Stopped."@)
                } else {
                    log
                },
                result,
            },
        },
        _ => TurnView::Next { state: s, log: None, action: solid_action(s) },
    }
}

/// Starts the command for a color and a brightness, if they resolve to a color.
pub fn cmd_solid(color: &str, brightness: u8) -> (r: Result<Solid, ConfigError>)
    ensures
        ({
            let cfg = ConfigView { color: color@, brightness };
            match r {
                Ok(s) => s matches Solid::Opening { color: resolved } && crate::config::resolve(cfg)
                    == Ok::<Color, ConfigErrorView>(resolved),
                Err(e) => crate::config::resolve(cfg) == Err::<Color, ConfigErrorView>(e@),
            }
        }),
        r is Ok <==> brightness <= 100 && crate::color::parse_color(color@) is Some,
        (r matches Err(e) && e is Brightness) <==> brightness > 100,
        r matches Ok(s) ==> {
            let whole = crate::color::parse_color(color@)->0;
            let c = s->Opening_color;
            &&& s is Opening
            &&& 100 * c.r <= whole.r * brightness < 100 * (c.r + 1)
            &&& 100 * c.g <= whole.g * brightness < 100 * (c.g + 1)
            &&& 100 * c.b <= whole.b * brightness < 100 * (c.b + 1)
        },
{
    let cfg = Config { color: color.to_owned(), brightness };
    proof {
        crate::config::law_resolved_is_the_share_of_the_color(cfg@);
    }
    match cfg.resolved() {
        Ok(color) => Ok(Solid::Opening { color }),
        Err(e) => Err(e),
    }
}

fn driving_report(model: Model, color: Color) -> (line: String)
    ensures
        line@ == driving_line(model, color),
{
    let mut line = "Driving ".to_owned();
    line.append(model.name());
    line.append(" with solid #");
    push_color(&mut line, color);
    line.append(". Ctrl-C to stop.");
    line
}

impl Solid {
    /// The work that the command waits for.
    pub fn action(&self) -> (a: Action)
        ensures
            a@ == solid_action(*self),
    {
        match self {
            Solid::Opening { .. } => Action::OpenMic,
            Solid::Installing { .. } => Action::InstallSignalHandler,
            Solid::Driving { drive } => drive.action(),
        }
    }

    /// Goes on after an event.
    pub fn step(self, event: Event) -> (t: Turn<Solid>)
        ensures
            t@ == solid_next(self, event@),
    {
        match (self, event) {
            (Solid::Opening { color }, Event::Opened(model)) => {
                if supported(model) {
                    Turn::Next {
                        state: Solid::Installing { color },
                        log: Some(driving_report(model, color)),
                        action: Action::InstallSignalHandler,
                    }
                } else {
                    Turn::End { log: None, result: Err(Fault::UnsupportedModel) }
                }
            },
            (Solid::Installing { color }, Event::HandlerInstalled) => {
                let drive = drive_lights(color, None);
                Turn::Next { state: Solid::Driving { drive }, log: None, action: drive.action() }
            },
            (Solid::Opening { .. }, Event::Failed(reason)) => Turn::End {
                log: None,
                result: Err(Fault::Work(reason)),
            },
            (Solid::Installing { .. }, Event::Failed(reason)) => Turn::End {
                log: None,
                result: Err(Fault::Work(reason)),
            },
            (Solid::Driving { drive }, event) => match drive.step(event) {
                Turn::Next { state, log, action } => Turn::Next {
                    state: Solid::Driving { drive: state },
                    log,
                    action,
                },
                Turn::End { log, result } => match result {
                    Ok(()) => Turn::End { log: Some("Stopped.".to_owned()), result: Ok(()) },
                    Err(fault) => Turn::End { log, result: Err(fault) },
                },
            },
            (state, _) => Turn::Next { state, log: None, action: state.action() },
        }
    }
}

/// The color that the command shows, all along.
pub open spec fn solid_color(s: Solid) -> Color {
    match s {
        Solid::Opening { color } => color,
        Solid::Installing { color } => color,
        Solid::Driving { drive } => drive.color,
    }
}

/// No deadline ends the command.
pub open spec fn solid_wf(s: Solid) -> bool {
    s matches Solid::Driving { drive } ==> drive.deadline is None
}

/// Every turn keeps the color that was asked for, and every packet is the header or shows that
/// color.
pub proof fn law_solid_shows_its_color(s: Solid, event: EventView)
    requires
        solid_wf(s),
    ensures
        solid_next(s, event) matches TurnView::Next { state, action, .. } ==> {
            &&& solid_wf(state)
            &&& solid_color(state) == solid_color(s)
            &&& action == solid_action(state)
            &&& action matches ActionView::Send(packet) ==> packet == crate::packet::header_packet()
                || packet == crate::packet::solid_packet(solid_color(s), solid_color(s))
        },
{
}

/// A microphone with another protocol is refused before anything is sent to it.
pub proof fn law_solid_refuses_unsupported(color: Color, model: Model)
    requires
        !crate::work::is_supported(model),
    ensures
        solid_next(Solid::Opening { color }, EventView::Opened(model)) == (TurnView::<Solid>::End {
            log: None,
            result: Err(FaultView::UnsupportedModel),
        }),
{
}

/// The command ends well only by an interrupt, and says so.
pub proof fn law_solid_ends_when_interrupted(s: Solid, event: EventView)
    requires
        solid_wf(s),
        solid_next(s, event) matches TurnView::End { result, .. } && result is Ok,
    ensures
        event == EventView::Running(false),
        solid_next(s, event)->End_log == Some("Stopped."@),
{
}

/// What the command asks for at each of its stages.
pub proof fn law_solid_asks_for(s: Solid)
    ensures
        s@ == s,
        s is Opening ==> solid_action(s) == ActionView::OpenMic,
        s is Installing ==> solid_action(s) == ActionView::InstallSignalHandler,
        s matches Solid::Driving { drive } ==> solid_action(s) == crate::drive::drive_action(drive),
{
}

/// From the start to the lights: on every supported model the microphone is opened, the line that
/// names it and the color is logged, the handler is installed, and the loop begins to drive that
/// color on no deadline, at the running flag.
pub proof fn law_solid_startup(color: Color, model: Model)
    requires
        model is QuadcastS || model is Duocast || model is Quadcast2,
    ensures
        solid_next(Solid::Opening { color }, EventView::Opened(model)) matches TurnView::Next {
            state: opened,
            log,
            action,
        } && action == ActionView::InstallSignalHandler && log == Some(
            "Driving "@ + crate::device::model_name(model) + " with solid #"@
                + crate::color::color_hex(color) + ". Ctrl-C to stop."@,
        ) && (solid_next(opened, EventView::HandlerInstalled) matches TurnView::Next {
            state: installed,
            log: quiet,
            action: first,
        } && quiet is None && first == ActionView::CheckRunning && (solid_next(
            installed,
            EventView::Running(true),
        ) matches TurnView::Next { state: at_header, log: still, action: sent } && still is None
            && sent == ActionView::Send(crate::packet::header_packet()) && (solid_next(
            at_header,
            EventView::Sent(64),
        ) matches TurnView::Next { action: shown, .. } && shown == ActionView::Send(
            crate::packet::solid_packet(color, color),
        )))),
{
}

/// Before the lights are driven the command ends when its work failed, with that reason, or when
/// the model is the Quadcast 2S; on an event that is no answer it stays as it is and asks again.
pub proof fn law_solid_before_the_lights(s: Solid, event: EventView)
    requires
        s is Opening || s is Installing,
    ensures
        solid_next(s, event) is End <==> event is Failed || (s is Opening && event
            == EventView::Opened(Model::Quadcast2S)),
        solid_next(s, event) matches TurnView::End { log, result } ==> {
            &&& log is None
            &&& event is Opened ==> result == Err::<(), FaultView>(FaultView::UnsupportedModel)
            &&& event matches EventView::Failed(reason) ==> result == Err::<(), FaultView>(
                FaultView::Work(reason),
            )
        },
        solid_next(s, event) matches TurnView::Next { state, log, action } ==> {
            &&& state == match (s, event) {
                (Solid::Opening { color }, EventView::Opened(_)) => Solid::Installing { color },
                (Solid::Installing { color }, EventView::HandlerInstalled) => Solid::Driving {
                    drive: Drive { color, deadline: None, point: DrivePoint::CheckRunning },
                },
                _ => s,
            }
            &&& log is Some <==> s is Opening && event is Opened
            &&& action == solid_action(state)
        },
{
}

/// Once the lights are driven the command does what the loop does, and says so when that ended
/// well.
pub proof fn law_solid_drives(drive: Drive, event: EventView)
    ensures
        ({
            let s = Solid::Driving { drive };
            match crate::drive::drive_next(drive, event) {
                TurnView::Next { state, log, action } => solid_next(s, event) == (TurnView::Next {
                    state: Solid::Driving { drive: state },
                    log,
                    action,
                }),
                TurnView::End { log, result } => {
                    &&& solid_next(s, event) is End
                    &&& solid_next(s, event)->End_result == result
                    &&& result is Ok ==> solid_next(s, event)->End_log == Some("Stopped."@)
                    &&& result is Err ==> solid_next(s, event)->End_log == log
                },
            }
        }),
{
}

} // verus!
