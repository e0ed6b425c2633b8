//! The daemon: it shows the configured color and takes up changes of the configuration file.

use vstd::prelude::*;
use vstd::string::StringExecFns;
use crate::color::{push_color, Color};
use crate::config::{Config, ConfigErrorView, ConfigView};
use crate::device::Model;
use crate::packet::{build_header_packet, build_solid_packet, check_sent, ShortTransfer, PACKET_SIZE};
use crate::text::push_decimal;
use crate::work::{
    supported, Action, ActionView, Event, EventView, Fault, FaultView, Transfer, Turn, TurnView,
    CONFIG_POLL_INTERVAL_NANOS, REFRESH_INTERVAL_MICROS,
};

verus! {

/// Where in a round the daemon is, by the work that it waits for.
#[derive(Debug, Clone, Copy, PartialEq, Eq, Structural)]
pub enum LoopPoint {
    CheckRunning,
    SendHeader,
    SendData,
    Sleeping,
    /// The clock tells whether it is time to look at the configuration file.
    CheckPoll,
    /// It is time: the clock is read again and kept as the time of this look.
    StampPoll,
    CheckMtime,
    Reload,
}

/// The daemon once it runs.
#[derive(Debug)]
pub struct LightLoop {
    pub model: Model,
    /// The last configuration that resolved, and the color that it resolved to.
    pub config: Config,
    pub color: Color,
    /// When the configuration file was last seen to be changed, if that could be told.
    pub last_mtime: Option<i128>,
    /// When it was last looked at.
    pub last_poll: i128,
    pub point: LoopPoint,
}

pub struct LightLoopView {
    pub model: Model,
    pub config: ConfigView,
    pub color: Color,
    pub last_mtime: Option<i128>,
    pub last_poll: i128,
    pub point: LoopPoint,
}

impl View for LightLoop {
    type V = LightLoopView;

    open spec fn view(&self) -> LightLoopView {
        LightLoopView {
            model: self.model,
            config: self.config@,
            color: self.color,
            last_mtime: self.last_mtime,
            last_poll: self.last_poll,
            point: self.point,
        }
    }
}

/// The daemon, by what it waits for.
#[derive(Debug)]
pub enum Daemon {
    Opening,
    Installing { model: Model },
    Loading { model: Model },
    FirstMtime { model: Model, config: Config, color: Color },
    FirstClock { model: Model, config: Config, color: Color, mtime: Option<i128> },
    Looping { lights: LightLoop },
}

pub enum DaemonView {
    Opening,
    Installing { model: Model },
    Loading { model: Model },
    FirstMtime { model: Model, config: ConfigView, color: Color },
    FirstClock { model: Model, config: ConfigView, color: Color, mtime: Option<i128> },
    Looping { lights: LightLoopView },
}

impl View for Daemon {
    type V = DaemonView;

    open spec fn view(&self) -> DaemonView {
        match self {
            Daemon::Opening => DaemonView::Opening,
            Daemon::Installing { model } => DaemonView::Installing { model: *model },
            Daemon::Loading { model } => DaemonView::Loading { model: *model },
            Daemon::FirstMtime { model, config, color } => DaemonView::FirstMtime {
                model: *model,
                config: config@,
                color: *color,
            },
            Daemon::FirstClock { model, config, color, mtime } => DaemonView::FirstClock {
                model: *model,
                config: config@,
                color: *color,
                mtime: *mtime,
            },
            Daemon::Looping { lights } => DaemonView::Looping { lights: lights@ },
        }
    }
}

pub open spec fn daemon_line(model: Model, color: Color) -> Seq<char> {
    "[quadcastctl] daemon driving "@ + crate::device::model_name(model) + " with #"@
        + crate::color::color_hex(color)
}

pub open spec fn reloaded_line(cfg: ConfigView, color: Color) -> Seq<char> {
    "[quadcastctl] reloaded config: color="@ + cfg.color + " brightness="@ + crate::text::decimal(
        cfg.brightness as nat,
    ) + " -> #"@ + crate::color::color_hex(color)
}

pub open spec fn reload_failed_line(reason: Seq<char>) -> Seq<char> {
    "[quadcastctl] config reload failed, keeping previous: "@ + reason
}

/// It is time to look at the configuration file again: the interval has passed, or the clock was
/// set back.
pub open spec fn is_poll_due(last_poll: i128, now: i128) -> bool {
    now < last_poll || now - last_poll >= CONFIG_POLL_INTERVAL_NANOS
}

/// The work that a point of the loop waits for.
pub open spec fn loop_action(l: LightLoopView) -> ActionView {
    match l.point {
        LoopPoint::CheckRunning => ActionView::CheckRunning,
        LoopPoint::SendHeader => ActionView::Send(crate::packet::header_packet()),
        LoopPoint::SendData => ActionView::Send(crate::packet::solid_packet(l.color, l.color)),
        LoopPoint::Sleeping => ActionView::Sleep(REFRESH_INTERVAL_MICROS),
        LoopPoint::CheckPoll => ActionView::ReadClock,
        LoopPoint::StampPoll => ActionView::ReadClock,
        LoopPoint::CheckMtime => ActionView::ReadMtime,
        LoopPoint::Reload => ActionView::LoadConfig,
    }
}

/// The work that the daemon waits for.
pub open spec fn daemon_action(d: DaemonView) -> ActionView {
    match d {
        DaemonView::Opening => ActionView::OpenMic,
        DaemonView::Installing { .. } => ActionView::InstallSignalHandler,
        DaemonView::Loading { .. } => ActionView::LoadConfig,
        DaemonView::FirstMtime { .. } => ActionView::ReadMtime,
        DaemonView::FirstClock { .. } => ActionView::ReadClock,
        DaemonView::Looping { lights } => loop_action(lights),
    }
}

/// The turn that goes on in `state` with the work that it waits for.
pub open spec fn go_on(state: DaemonView, log: Option<Seq<char>>) -> TurnView<DaemonView> {
    TurnView::Next { state, log, action: daemon_action(state) }
}

pub open spec fn fail(fault: FaultView) -> TurnView<DaemonView> {
    TurnView::End { log: None, result: Err(fault) }
}

/// The turn that goes on at `point` of the loop.
pub open spec fn loop_at(
    l: LightLoopView,
    point: LoopPoint,
    log: Option<Seq<char>>,
) -> TurnView<DaemonView> {
    go_on(DaemonView::Looping { lights: LightLoopView { point, ..l } }, log)
}

/// The turn after a packet was sent: on to `point`, if all of it was written.
pub open spec fn loop_sent(l: LightLoopView, sent: usize, point: LoopPoint) -> TurnView<DaemonView> {
    if sent == PACKET_SIZE {
        loop_at(l, point, None)
    } else {
        fail(FaultView::ShortTransfer(ShortTransfer { sent, expected: PACKET_SIZE }))
    }
}

/// The loop after the file was read anew: a configuration that resolves is taken over, anything
/// else leaves the lights as they are.
pub open spec fn loop_reloaded(
    l: LightLoopView,
    loaded: Result<ConfigView, Seq<char>>,
) -> TurnView<DaemonView> {
    match loaded {
        Ok(config) => match crate::config::resolve(config) {
            Ok(color) => loop_at(
                LightLoopView { config, color, ..l },
                LoopPoint::CheckRunning,
                Some(reloaded_line(config, color)),
            ),
            Err(e) => loop_at(
                l,
                LoopPoint::CheckRunning,
                Some(reload_failed_line(crate::config::config_error_message(e))),
            ),
        },
        Err(reason) => loop_at(l, LoopPoint::CheckRunning, Some(reload_failed_line(reason))),
    }
}

/// A round: the running flag, the header, the display packet, the pause; then, when a look at the
/// configuration file is due, its time of change, and the file itself if that time is another
/// than before.
pub open spec fn loop_next(l: LightLoopView, event: EventView) -> TurnView<DaemonView> {
    match (l.point, event) {
        (LoopPoint::CheckRunning, EventView::Running(running)) => if running {
            loop_at(l, LoopPoint::SendHeader, None)
        } else {
            TurnView::End { log: Some("[quadcastctl] daemon exiting cleanly"@), result: Ok(()) }
        },
        (LoopPoint::SendHeader, EventView::Sent(sent)) => loop_sent(l, sent, LoopPoint::SendData),
        (LoopPoint::SendData, EventView::Sent(sent)) => loop_sent(l, sent, LoopPoint::Sleeping),
        (LoopPoint::SendHeader, EventView::Failed(reason)) => fail(FaultView::Work(reason)),
        (LoopPoint::SendData, EventView::Failed(reason)) => fail(FaultView::Work(reason)),
        (LoopPoint::Sleeping, EventView::Slept) => loop_at(l, LoopPoint::CheckPoll, None),
        (LoopPoint::CheckPoll, EventView::Clock(now)) => if is_poll_due(l.last_poll, now) {
            loop_at(l, LoopPoint::StampPoll, None)
        } else {
            loop_at(l, LoopPoint::CheckRunning, None)
        },
        (LoopPoint::StampPoll, EventView::Clock(now)) => loop_at(
            LightLoopView { last_poll: now, ..l },
            LoopPoint::CheckMtime,
            None,
        ),
        (LoopPoint::CheckMtime, EventView::Mtime(mtime)) => if mtime != l.last_mtime {
            loop_at(LightLoopView { last_mtime: mtime, ..l }, LoopPoint::Reload, None)
        } else {
            loop_at(l, LoopPoint::CheckRunning, None)
        },
        (LoopPoint::Reload, EventView::ConfigLoaded(config)) => loop_reloaded(l, Ok(config)),
        (LoopPoint::Reload, EventView::Failed(reason)) => loop_reloaded(l, Err(reason)),
        _ => loop_at(l, l.point, None),
    }
}

/// The microphone is opened, its protocol checked, the handler installed, the configuration
/// loaded and resolved, its time of change and the clock read; then the loop begins. An event
/// that is no answer to the work at hand has the daemon ask again.
pub open spec fn daemon_next(d: DaemonView, event: EventView) -> TurnView<DaemonView> {
    match (d, event) {
        (DaemonView::Opening, EventView::Opened(model)) => if crate::work::is_supported(model) {
            go_on(DaemonView::Installing { model }, None)
        } else {
            fail(FaultView::UnsupportedModel)
        },
        (DaemonView::Installing { model }, EventView::HandlerInstalled) => go_on(
            DaemonView::Loading { model },
            None,
        ),
        (DaemonView::Loading { model }, EventView::ConfigLoaded(config)) => match crate::config::resolve(
            config,
        ) {
            Ok(color) => go_on(DaemonView::FirstMtime { model, config, color }, None),
            Err(e) => fail(FaultView::Config(e)),
        },
        (DaemonView::FirstMtime { model, config, color }, EventView::Mtime(mtime)) => go_on(
            DaemonView::FirstClock { model, config, color, mtime },
            None,
        ),
        (DaemonView::FirstClock { model, config, color, mtime }, EventView::Clock(now)) => loop_at(
            LightLoopView {
                model,
                config,
                color,
                last_mtime: mtime,
                last_poll: now,
                point: LoopPoint::CheckRunning,
            },
            LoopPoint::CheckRunning,
            Some(daemon_line(model, color)),
        ),
        (DaemonView::Opening, EventView::Failed(reason)) => fail(FaultView::Work(reason)),
        (DaemonView::Installing { .. }, EventView::Failed(reason)) => fail(FaultView::Work(reason)),
        (DaemonView::Loading { .. }, EventView::Failed(reason)) => fail(FaultView::Work(reason)),
        (DaemonView::Looping { lights }, _) => loop_next(lights, event),
        _ => go_on(d, None),
    }
}

/// Tells whether it is time to look at the configuration file again.
pub fn poll_due(last_poll: i128, now: i128) -> (due: bool)
    ensures
        due == is_poll_due(last_poll, now),
        due <==> now < last_poll || now >= last_poll + 1_000_000_000,
{
    if now < last_poll {
        return true;
    }
    match now.checked_sub(last_poll) {
        Some(elapsed) => elapsed >= CONFIG_POLL_INTERVAL_NANOS,
        None => true,
    }
}

fn daemon_report(model: Model, color: Color) -> (line: String)
    ensures
        line@ == daemon_line(model, color),
{
    let mut line = "[quadcastctl] daemon driving ".to_owned();
    line.append(model.name());
    line.append(" with #");
    push_color(&mut line, color);
    line
}

fn reloaded_report(cfg: &Config, color: Color) -> (line: String)
    ensures
        line@ == reloaded_line(cfg@, color),
{
    let mut line = "[quadcastctl] reloaded config: color=".to_owned();
    line.append(cfg.color.as_str());
    line.append(" brightness=");
    push_decimal(&mut line, cfg.brightness as u64);
    line.append(" -> #");
    push_color(&mut line, color);
    line
}

fn reload_failed_report(reason: &str) -> (line: String)
    ensures
        line@ == reload_failed_line(reason@),
{
    let mut line = "[quadcastctl] config reload failed, keeping previous: ".to_owned();
    line.append(reason);
    line
}

fn failed(fault: Fault) -> (t: Turn<Daemon>)
    ensures
        t@ == fail(fault@),
{
    Turn::End { log: None, result: Err(fault) }
}

impl LightLoop {
    fn action(&self) -> (a: Action)
        ensures
            a@ == loop_action(self@),
    {
        match self.point {
            LoopPoint::CheckRunning => Action::CheckRunning,
            LoopPoint::SendHeader => Action::Send(build_header_packet()),
            LoopPoint::SendData => Action::Send(build_solid_packet(self.color, self.color)),
            LoopPoint::Sleeping => Action::Sleep(REFRESH_INTERVAL_MICROS),
            LoopPoint::CheckPoll => Action::ReadClock,
            LoopPoint::StampPoll => Action::ReadClock,
            LoopPoint::CheckMtime => Action::ReadMtime,
            LoopPoint::Reload => Action::LoadConfig,
        }
    }

    fn go_to(self, point: LoopPoint, log: Option<String>) -> (t: Turn<Daemon>)
        ensures
            t@ == loop_at(self@, point, crate::work::log_view(log)),
    {
        let mut lights = self;
        lights.point = point;
        let action = lights.action();
        Turn::Next { state: Daemon::Looping { lights }, log, action }
    }

    fn after_send(self, sent: usize, point: LoopPoint) -> (t: Turn<Daemon>)
        ensures
            t@ == loop_sent(self@, sent, point),
    {
        match check_sent(sent, PACKET_SIZE) {
            Ok(()) => self.go_to(point, None),
            Err(e) => failed(Fault::ShortTransfer(e)),
        }
    }

    fn reloaded(self, config: Config) -> (t: Turn<Daemon>)
        ensures
            t@ == loop_reloaded(self@, Ok(config@)),
    {
        match config.resolved() {
            Ok(color) => {
                let log = Some(reloaded_report(&config, color));
                let mut lights = self;
                lights.config = config;
                lights.color = color;
                lights.go_to(LoopPoint::CheckRunning, log)
            },
            Err(e) => {
                let log = Some(reload_failed_report(e.message().as_str()));
                self.go_to(LoopPoint::CheckRunning, log)
            },
        }
    }

    fn step(self, event: Event) -> (t: Turn<Daemon>)
        ensures
            t@ == loop_next(self@, event@),
    {
        match (self.point, event) {
            (LoopPoint::CheckRunning, Event::Running(running)) => {
                if running {
                    self.go_to(LoopPoint::SendHeader, None)
                } else {
                    Turn::End {
                        log: Some("[quadcastctl] daemon exiting cleanly".to_owned()),
                        result: Ok(()),
                    }
                }
            },
            (LoopPoint::SendHeader, Event::Sent(sent)) => self.after_send(sent, LoopPoint::SendData),
            (LoopPoint::SendData, Event::Sent(sent)) => self.after_send(sent, LoopPoint::Sleeping),
            (LoopPoint::SendHeader, Event::Failed(reason)) => failed(Fault::Work(reason)),
            (LoopPoint::SendData, Event::Failed(reason)) => failed(Fault::Work(reason)),
            (LoopPoint::Sleeping, Event::Slept) => self.go_to(LoopPoint::CheckPoll, None),
            (LoopPoint::CheckPoll, Event::Clock(now)) => {
                if poll_due(self.last_poll, now) {
                    self.go_to(LoopPoint::StampPoll, None)
                } else {
                    self.go_to(LoopPoint::CheckRunning, None)
                }
            },
            (LoopPoint::StampPoll, Event::Clock(now)) => {
                let mut lights = self;
                lights.last_poll = now;
                lights.go_to(LoopPoint::CheckMtime, None)
            },
            (LoopPoint::CheckMtime, Event::Mtime(mtime)) => {
                if mtime != self.last_mtime {
                    let mut lights = self;
                    lights.last_mtime = mtime;
                    lights.go_to(LoopPoint::Reload, None)
                } else {
                    self.go_to(LoopPoint::CheckRunning, None)
                }
            },
            (LoopPoint::Reload, Event::ConfigLoaded(config)) => self.reloaded(config),
            (LoopPoint::Reload, Event::Failed(reason)) => {
                let log = Some(reload_failed_report(reason.as_str()));
                self.go_to(LoopPoint::CheckRunning, log)
            },
            (point, _) => self.go_to(point, None),
        }
    }
}

/// Starts the daemon.
pub fn cmd_daemon() -> (d: Daemon)
    ensures
        d@ == DaemonView::Opening,
        d is Opening,
{
    Daemon::Opening
}

impl Daemon {
    /// The work that the daemon waits for.
    pub fn action(&self) -> (a: Action)
        ensures
            a@ == daemon_action(self@),
    {
        match self {
            Daemon::Opening => Action::OpenMic,
            Daemon::Installing { .. } => Action::InstallSignalHandler,
            Daemon::Loading { .. } => Action::LoadConfig,
            Daemon::FirstMtime { .. } => Action::ReadMtime,
            Daemon::FirstClock { .. } => Action::ReadClock,
            Daemon::Looping { lights } => lights.action(),
        }
    }

    fn go_on(self) -> (t: Turn<Daemon>)
        ensures
            t@ == go_on(self@, None),
    {
        let action = self.action();
        Turn::Next { state: self, log: None, action }
    }

    /// Goes on after an event.
    pub fn step(self, event: Event) -> (t: Turn<Daemon>)
        ensures
            t@ == daemon_next(self@, event@),
    {
        match (self, event) {
            (Daemon::Opening, Event::Opened(model)) => {
                if supported(model) {
                    Daemon::Installing { model }.go_on()
                } else {
                    failed(Fault::UnsupportedModel)
                }
            },
            (Daemon::Installing { model }, Event::HandlerInstalled) => Daemon::Loading {
                model,
            }.go_on(),
            (Daemon::Loading { model }, Event::ConfigLoaded(config)) => {
                match config.resolved() {
                    Ok(color) => Daemon::FirstMtime { model, config, color }.go_on(),
                    Err(e) => failed(Fault::Config(e)),
                }
            },
            (Daemon::FirstMtime { model, config, color }, Event::Mtime(mtime)) => {
                Daemon::FirstClock { model, config, color, mtime }.go_on()
            },
            (Daemon::FirstClock { model, config, color, mtime }, Event::Clock(now)) => {
                let point = LoopPoint::CheckRunning;
                let lights = LightLoop {
                    model,
                    config,
                    color,
                    last_mtime: mtime,
                    last_poll: now,
                    point,
                };
                lights.go_to(point, Some(daemon_report(model, color)))
            },
            (Daemon::Opening, Event::Failed(reason)) => failed(Fault::Work(reason)),
            (Daemon::Installing { .. }, Event::Failed(reason)) => failed(Fault::Work(reason)),
            (Daemon::Loading { .. }, Event::Failed(reason)) => failed(Fault::Work(reason)),
            (Daemon::Looping { lights }, event) => lights.step(event),
            (state, _) => state.go_on(),
        }
    }
}

/// What holds of the daemon at any time: it drives no microphone with another protocol, and the
/// color that it holds is the one that its configuration resolves to.
pub open spec fn daemon_wf(d: DaemonView) -> bool {
    match d {
        DaemonView::Opening => true,
        DaemonView::Installing { model } => crate::work::is_supported(model),
        DaemonView::Loading { model } => crate::work::is_supported(model),
        DaemonView::FirstMtime { model, config, color } => crate::work::is_supported(model)
            && crate::config::resolve(config) == Ok::<Color, ConfigErrorView>(color),
        DaemonView::FirstClock { model, config, color, .. } => crate::work::is_supported(model)
            && crate::config::resolve(config) == Ok::<Color, ConfigErrorView>(color),
        DaemonView::Looping { lights } => crate::work::is_supported(lights.model)
            && crate::config::resolve(lights.config) == Ok::<Color, ConfigErrorView>(lights.color),
    }
}

/// The state after the events, one after the other, or none if the daemon ended on the way.
pub open spec fn daemon_run(d: DaemonView, events: Seq<EventView>) -> Option<DaemonView>
    decreases events.len(),
{
    if events.len() == 0 {
        Some(d)
    } else {
        match daemon_next(d, events[0]) {
            TurnView::Next { state, .. } => daemon_run(state, events.skip(1)),
            TurnView::End { .. } => None,
        }
    }
}

/// One more event takes the state one turn further.
proof fn lemma_daemon_push(d: DaemonView, events: Seq<EventView>, event: EventView)
    ensures
        daemon_run(d, events.push(event)) == match daemon_run(d, events) {
            Some(e) => match daemon_next(e, event) {
                TurnView::Next { state, .. } => Some(state),
                TurnView::End { .. } => None,
            },
            None => None,
        },
    decreases events.len(),
{
    if events.len() == 0 {
        assert(events.push(event).skip(1) =~= Seq::empty());
        reveal_with_fuel(daemon_run, 2);
    } else {
        assert(events.push(event).skip(1) =~= events.skip(1).push(event));
        match daemon_next(d, events[0]) {
            TurnView::Next { state, .. } => lemma_daemon_push(state, events.skip(1), event),
            TurnView::End { .. } => {},
        }
    }
}

/// Every turn keeps what holds of the daemon, and asks for the work that its state waits for.
pub proof fn law_daemon_turn_keeps_invariant(d: DaemonView, event: EventView)
    requires
        daemon_wf(d),
    ensures
        daemon_next(d, event) matches TurnView::Next { state, action, .. } ==> daemon_wf(state)
            && action == daemon_action(state),
{
}

/// Whatever happens from the start on, each packet is the header or shows, on both diodes, the
/// color that the configuration in force resolves to.
pub proof fn law_daemon_shows_its_config(events: Seq<EventView>)
    ensures
        daemon_run(DaemonView::Opening, events) matches Some(d) ==> {
            &&& daemon_wf(d)
            &&& daemon_action(d) matches ActionView::Send(packet) ==> {
                &&& d matches DaemonView::Looping { lights }
                &&& crate::config::resolve(lights.config) matches Ok(color)
                &&& packet == crate::packet::header_packet() || packet
                    == crate::packet::solid_packet(color, color)
            }
        },
{
    lemma_run_keeps_invariant(DaemonView::Opening, events);
}

proof fn lemma_run_keeps_invariant(d: DaemonView, events: Seq<EventView>)
    requires
        daemon_wf(d),
    ensures
        daemon_run(d, events) matches Some(e) ==> daemon_wf(e),
    decreases events.len(),
{
    if events.len() > 0 {
        law_daemon_turn_keeps_invariant(d, events[0]);
        match daemon_next(d, events[0]) {
            TurnView::Next { state, .. } => lemma_run_keeps_invariant(state, events.skip(1)),
            TurnView::End { .. } => {},
        }
    }
}

/// The configuration that the daemon accepted last in the course of the events: the last one that
/// it loaded and that resolves.
pub open spec fn accepted_config(events: Seq<EventView>) -> Option<ConfigView>
    decreases events.len(),
{
    if events.len() == 0 {
        None
    } else {
        let before = events.drop_last();
        match (daemon_run(DaemonView::Opening, before), events.last()) {
            (Some(d), EventView::ConfigLoaded(config)) => if daemon_action(d)
                == ActionView::LoadConfig && crate::config::resolve(config) is Ok {
                Some(config)
            } else {
                accepted_config(before)
            },
            _ => accepted_config(before),
        }
    }
}

/// A transfer of the daemon, with the configuration that was accepted last before it.
pub struct DaemonTransfer {
    pub transfer: Transfer,
    pub config: Option<ConfigView>,
}

/// All the transfers in the course of the events, in their order.
pub open spec fn daemon_transfers(events: Seq<EventView>) -> Seq<DaemonTransfer>
    decreases events.len(),
{
    if events.len() == 0 {
        Seq::empty()
    } else {
        let before = events.drop_last();
        match daemon_run(DaemonView::Opening, before) {
            Some(d) => match crate::work::transfer_of(daemon_action(d), events.last()) {
                Some(transfer) => daemon_transfers(before).push(
                    DaemonTransfer { transfer, config: accepted_config(before) },
                ),
                None => daemon_transfers(before),
            },
            None => daemon_transfers(before),
        }
    }
}

/// How the daemon ended in the course of the events, if it did. What comes after its end is
/// passed over.
pub open spec fn daemon_result(events: Seq<EventView>) -> Option<Result<(), FaultView>>
    decreases events.len(),
{
    if events.len() == 0 {
        None
    } else {
        let before = events.drop_last();
        match daemon_run(DaemonView::Opening, before) {
            Some(d) => match daemon_next(d, events.last()) {
                TurnView::End { result, .. } => Some(result),
                TurnView::Next { .. } => None,
            },
            None => daemon_result(before),
        }
    }
}

/// Headers and display packets take turns, the header first, and each display packet shows, on
/// both diodes, the color of the configuration that was accepted last before it.
pub open spec fn alternate(transfers: Seq<DaemonTransfer>) -> bool {
    forall|i: int|
        0 <= i < transfers.len() ==> {
            let t = #[trigger] transfers[i];
            if i % 2 == 0 {
                t.transfer.packet == crate::packet::header_packet()
            } else {
                &&& t.config matches Some(config)
                &&& crate::config::resolve(config) matches Ok(color)
                &&& t.transfer.packet == crate::packet::solid_packet(color, color)
            }
        }
}

/// All but the last of the transfers are whole.
pub open spec fn whole_but_last(transfers: Seq<DaemonTransfer>) -> bool {
    forall|i: int| 0 <= i < transfers.len() - 1 ==> (#[trigger] transfers[i]).transfer.whole
}

/// A whole run of the daemon, whatever happens in it. Its transfers are the header and a display
/// packet in turn, as [`alternate`] says. A transfer that is not whole is the last one, and the
/// daemon then ends with an error. It ends well only once it was interrupted, and then after
/// whole pairs of header and display packet.
pub proof fn law_daemon_transfers(events: Seq<EventView>)
    ensures
        ({
            let transfers = daemon_transfers(events);
            let result = daemon_result(events);
            &&& alternate(transfers)
            &&& whole_but_last(transfers)
            &&& transfers.len() > 0 && !transfers.last().transfer.whole ==> (result matches Some(r)
                && r is Err)
            &&& result == Some(Ok::<(), FaultView>(())) ==> {
                &&& transfers.len() % 2 == 0
                &&& transfers.len() > 0 ==> transfers.last().transfer.whole
                &&& events.contains(EventView::Running(false))
            }
            &&& result is Some <==> daemon_run(DaemonView::Opening, events) is None
        }),
{
    lemma_transfers(events);
}

/// The configuration that a state of the daemon holds.
spec fn held_config(d: DaemonView) -> Option<ConfigView> {
    match d {
        DaemonView::FirstMtime { config, .. } => Some(config),
        DaemonView::FirstClock { config, .. } => Some(config),
        DaemonView::Looping { lights } => Some(lights.config),
        _ => None,
    }
}

/// The header of a pair is sent, its display packet is not.
spec fn within_pair(d: DaemonView) -> bool {
    d matches DaemonView::Looping { lights } && lights.point == LoopPoint::SendData
}

/// What one turn has to do with the transfer that its event reports.
proof fn lemma_turn_transfer(d: DaemonView, event: EventView)
    requires
        daemon_wf(d),
    ensures
        ({
            let next = daemon_next(d, event);
            let transfer = crate::work::transfer_of(daemon_action(d), event);
            let loaded = event is ConfigLoaded && daemon_action(d) == ActionView::LoadConfig
                && crate::config::resolve(event->ConfigLoaded_0) is Ok;
            &&& next matches TurnView::Next { state, .. } ==> {
                &&& daemon_wf(state)
                &&& held_config(state) == (if loaded {
                    Some(event->ConfigLoaded_0)
                } else {
                    held_config(d)
                })
                &&& transfer is Some ==> transfer->0.whole
                &&& within_pair(state) <==> (transfer is Some) != within_pair(d)
            }
            &&& next matches TurnView::End { result, .. } ==> {
                &&& !loaded
                &&& transfer is Some ==> !transfer->0.whole && result is Err
                &&& result is Ok ==> event == EventView::Running(false) && !within_pair(d)
            }
            &&& transfer is Some && !within_pair(d) ==> transfer->0.packet
                == crate::packet::header_packet()
            &&& transfer is Some && within_pair(d) ==> {
                &&& held_config(d) matches Some(config)
                &&& crate::config::resolve(config) matches Ok(color)
                &&& transfer->0.packet == crate::packet::solid_packet(color, color)
            }
        }),
{
}

/// One more transfer of the right kind keeps the order.
proof fn lemma_alternate_push(transfers: Seq<DaemonTransfer>, t: DaemonTransfer)
    requires
        alternate(transfers),
        whole_but_last(transfers),
        transfers.len() > 0 ==> transfers.last().transfer.whole,
        transfers.len() % 2 == 0 ==> t.transfer.packet == crate::packet::header_packet(),
        transfers.len() % 2 == 1 ==> {
            &&& t.config matches Some(config)
            &&& crate::config::resolve(config) matches Ok(color)
            &&& t.transfer.packet == crate::packet::solid_packet(color, color)
        },
    ensures
        alternate(transfers.push(t)),
        whole_but_last(transfers.push(t)),
{
    let after = transfers.push(t);
    assert forall|i: int| 0 <= i < after.len() - 1 implies (#[trigger] after[i]).transfer.whole by {
        assert(after[i] == transfers[i]);
    }
    assert(alternate(after)) by {
        assert(forall|i: int| 0 <= i < transfers.len() ==> #[trigger] after[i] == transfers[i]);
        assert(after[transfers.len() as int] == t);
    }
}

proof fn lemma_transfers(events: Seq<EventView>)
    ensures
        alternate(daemon_transfers(events)),
        whole_but_last(daemon_transfers(events)),
        match daemon_run(DaemonView::Opening, events) {
            Some(d) => {
                &&& daemon_wf(d)
                &&& held_config(d) == accepted_config(events)
                &&& daemon_result(events) is None
                &&& daemon_transfers(events).len() % 2 == (if within_pair(d) {
                    1int
                } else {
                    0
                })
                &&& daemon_transfers(events).len() > 0 ==> daemon_transfers(
                    events,
                ).last().transfer.whole
            },
            None => {
                let transfers = daemon_transfers(events);
                &&& daemon_result(events) is Some
                &&& transfers.len() > 0 && !transfers.last().transfer.whole ==> daemon_result(
                    events,
                )->0 is Err
                &&& daemon_result(events)->0 is Ok ==> {
                    &&& transfers.len() % 2 == 0
                    &&& transfers.len() > 0 ==> transfers.last().transfer.whole
                    &&& events.contains(EventView::Running(false))
                }
            },
        },
    decreases events.len(),
{
    if events.len() > 0 {
        let before = events.drop_last();
        let event = events.last();
        assert(before.push(event) =~= events);
        lemma_transfers(before);
        lemma_daemon_push(DaemonView::Opening, before, event);
        assert(events[events.len() - 1] == event);
        match daemon_run(DaemonView::Opening, before) {
            Some(d) => {
                lemma_turn_transfer(d, event);
                if let Some(transfer) = crate::work::transfer_of(daemon_action(d), event) {
                    lemma_alternate_push(
                        daemon_transfers(before),
                        DaemonTransfer { transfer, config: accepted_config(before) },
                    );
                }
            },
            None => {
                if before.contains(EventView::Running(false)) {
                    let k = before.index_of(EventView::Running(false));
                    assert(events[k] == EventView::Running(false));
                }
            },
        }
    }
}

/// A microphone with another protocol is refused before anything is sent to it.
pub proof fn law_daemon_refuses_unsupported(model: Model)
    requires
        !crate::work::is_supported(model),
    ensures
        daemon_next(DaemonView::Opening, EventView::Opened(model)) == fail(
            FaultView::UnsupportedModel,
        ),
{
}

/// A configuration that cannot be read, or does not resolve, leaves the lights and the
/// configuration in force as they were, and the daemon goes on.
pub proof fn law_failed_reload_keeps_lights(l: LightLoopView, event: EventView)
    requires
        l.point == LoopPoint::Reload,
        match event {
            EventView::Failed(_) => true,
            EventView::ConfigLoaded(config) => crate::config::resolve(config) is Err,
            _ => false,
        },
    ensures
        loop_next(l, event) matches TurnView::Next { state, .. } && state == (DaemonView::Looping {
            lights: LightLoopView { point: LoopPoint::CheckRunning, ..l },
        }),
{
}

/// The file is read again only when its time of change is another than at the last look; that
/// time is kept even if reading then fails.
pub proof fn law_reload_needs_another_mtime(l: LightLoopView, event: EventView)
    requires
        l.point != LoopPoint::Reload,
        loop_next(l, event) matches TurnView::Next { action, .. } && action == ActionView::LoadConfig,
    ensures
        l.point == LoopPoint::CheckMtime,
        event matches EventView::Mtime(mtime) && mtime != l.last_mtime && loop_next(
            l,
            event,
        )->Next_state == (DaemonView::Looping {
            lights: LightLoopView { last_mtime: mtime, point: LoopPoint::Reload, ..l },
        }),
{
}

/// A round that nothing disturbs sends the header, sends the display packet, pauses, and, when
/// no look at the configuration file is due, begins anew with nothing changed.
pub proof fn law_daemon_round(l: LightLoopView, now: i128)
    requires
        l.point == LoopPoint::CheckRunning,
        !is_poll_due(l.last_poll, now),
    ensures
        ({
            let d = DaemonView::Looping { lights: l };
            let sent = EventView::Sent(PACKET_SIZE);
            let first = seq![EventView::Running(true)];
            let second = first.push(sent);
            let third = second.push(sent);
            &&& daemon_run(d, first) matches Some(a) && daemon_action(a) == ActionView::Send(
                crate::packet::header_packet(),
            )
            &&& daemon_run(d, second) matches Some(b) && daemon_action(b) == ActionView::Send(
                crate::packet::solid_packet(l.color, l.color),
            )
            &&& daemon_run(d, third) matches Some(c) && daemon_action(c) == ActionView::Sleep(
                REFRESH_INTERVAL_MICROS,
            )
            &&& daemon_run(d, third.push(EventView::Slept).push(EventView::Clock(now))) == Some(d)
        }),
{
    let d = DaemonView::Looping { lights: l };
    let sent = EventView::Sent(PACKET_SIZE);
    let none = Seq::<EventView>::empty();
    let first = seq![EventView::Running(true)];
    assert(first =~= none.push(EventView::Running(true)));
    lemma_daemon_push(d, none, EventView::Running(true));
    lemma_daemon_push(d, first, sent);
    lemma_daemon_push(d, first.push(sent), sent);
    lemma_daemon_push(d, first.push(sent).push(sent), EventView::Slept);
    lemma_daemon_push(
        d,
        first.push(sent).push(sent).push(EventView::Slept),
        EventView::Clock(now),
    );
}

/// A change of the file is taken up at the first look that is due: once a configuration that
/// resolves is loaded, the next display packet shows it.
pub proof fn law_change_is_taken_up(
    l: LightLoopView,
    now: i128,
    stamp: i128,
    mtime: Option<i128>,
    config: ConfigView,
    color: Color,
)
    requires
        l.point == LoopPoint::CheckPoll,
        is_poll_due(l.last_poll, now),
        mtime != l.last_mtime,
        crate::config::resolve(config) == Ok::<Color, ConfigErrorView>(color),
    ensures
        ({
            let events = seq![
                EventView::Clock(now),
                EventView::Clock(stamp),
                EventView::Mtime(mtime),
                EventView::ConfigLoaded(config),
                EventView::Running(true),
                EventView::Sent(PACKET_SIZE),
            ];
            daemon_run(DaemonView::Looping { lights: l }, events) == Some(
                DaemonView::Looping {
                    lights: LightLoopView {
                        model: l.model,
                        config,
                        color,
                        last_mtime: mtime,
                        last_poll: stamp,
                        point: LoopPoint::SendData,
                    },
                },
            )
        }),
        loop_action(
            LightLoopView {
                model: l.model,
                config,
                color,
                last_mtime: mtime,
                last_poll: stamp,
                point: LoopPoint::SendData,
            },
        ) == ActionView::Send(crate::packet::solid_packet(color, color)),
{
    let d = DaemonView::Looping { lights: l };
    let none = Seq::<EventView>::empty();
    let e1 = none.push(EventView::Clock(now));
    let e2 = e1.push(EventView::Clock(stamp));
    let e3 = e2.push(EventView::Mtime(mtime));
    let e4 = e3.push(EventView::ConfigLoaded(config));
    let e5 = e4.push(EventView::Running(true));
    let e6 = e5.push(EventView::Sent(PACKET_SIZE));
    lemma_daemon_push(d, none, EventView::Clock(now));
    lemma_daemon_push(d, e1, EventView::Clock(stamp));
    lemma_daemon_push(d, e2, EventView::Mtime(mtime));
    lemma_daemon_push(d, e3, EventView::ConfigLoaded(config));
    lemma_daemon_push(d, e4, EventView::Running(true));
    lemma_daemon_push(d, e5, EventView::Sent(PACKET_SIZE));
    assert(e6 =~= seq![
        EventView::Clock(now),
        EventView::Clock(stamp),
        EventView::Mtime(mtime),
        EventView::ConfigLoaded(config),
        EventView::Running(true),
        EventView::Sent(PACKET_SIZE),
    ]);
}

/// Once it runs, the daemon ends well only by an interrupt, and badly only by a packet that was
/// not sent whole; the configuration file never ends it.
pub proof fn law_running_daemon_ends(l: LightLoopView, event: EventView)
    requires
        loop_next(l, event) is End,
    ensures
        loop_next(l, event)->End_result is Ok <==> l.point == LoopPoint::CheckRunning && event
            == EventView::Running(false),
        loop_next(l, event)->End_result is Err ==> l.point == LoopPoint::SendHeader || l.point
            == LoopPoint::SendData,
{
}

/// The startup makes progress: on every supported model, with every configuration that resolves,
/// every time of change, known or not, and every clock, the answers to the work that is asked for
/// lead from the start to the header packet, with that time of change and that clock on record.
pub proof fn law_startup_reaches_the_lights(
    model: Model,
    config: ConfigView,
    color: Color,
    mtime: Option<i128>,
    now: i128,
)
    requires
        model is QuadcastS || model is Duocast || model is Quadcast2,
        crate::config::resolve(config) == Ok::<Color, ConfigErrorView>(color),
    ensures
        ({
            let events = seq![
                EventView::Opened(model),
                EventView::HandlerInstalled,
                EventView::ConfigLoaded(config),
                EventView::Mtime(mtime),
                EventView::Clock(now),
                EventView::Running(true),
            ];
            &&& daemon_run(DaemonView::Opening, events) matches Some(d)
            &&& daemon_action(d) == ActionView::Send(crate::packet::header_packet())
            &&& d matches DaemonView::Looping { lights }
            &&& lights.last_mtime == mtime
            &&& lights.last_poll == now
            &&& lights.model == model
            &&& lights.config == config
            &&& lights.color == color
        }),
{
    let before = Seq::<EventView>::empty().push(EventView::Opened(model)).push(
        EventView::HandlerInstalled,
    ).push(EventView::ConfigLoaded(config)).push(EventView::Mtime(mtime));
    lemma_startup(model, config, color, mtime);
    let lights = LightLoopView {
        model,
        config,
        color,
        last_mtime: mtime,
        last_poll: now,
        point: LoopPoint::CheckRunning,
    };
    lemma_daemon_turn(
        DaemonView::Opening,
        before,
        DaemonView::FirstClock { model, config, color, mtime },
        EventView::Clock(now),
        DaemonView::Looping { lights },
    );
    lemma_daemon_turn(
        DaemonView::Opening,
        before.push(EventView::Clock(now)),
        DaemonView::Looping { lights },
        EventView::Running(true),
        DaemonView::Looping { lights: LightLoopView { point: LoopPoint::SendHeader, ..lights } },
    );
    assert(before.push(EventView::Clock(now)).push(EventView::Running(true)) =~= seq![
        EventView::Opened(model),
        EventView::HandlerInstalled,
        EventView::ConfigLoaded(config),
        EventView::Mtime(mtime),
        EventView::Clock(now),
        EventView::Running(true),
    ]);
}

/// The work that the startup asks for, in its order: the microphone, the handler, the
/// configuration, its time of change, the clock, whatever that time of change is.
pub proof fn law_startup_asks_in_order(
    model: Model,
    config: ConfigView,
    color: Color,
    mtime: Option<i128>,
)
    requires
        model is QuadcastS || model is Duocast || model is Quadcast2,
        crate::config::resolve(config) == Ok::<Color, ConfigErrorView>(color),
    ensures
        ({
            let e0 = Seq::<EventView>::empty();
            let e1 = e0.push(EventView::Opened(model));
            let e2 = e1.push(EventView::HandlerInstalled);
            let e3 = e2.push(EventView::ConfigLoaded(config));
            let e4 = e3.push(EventView::Mtime(mtime));
            let start = DaemonView::Opening;
            &&& daemon_action(start) == ActionView::OpenMic
            &&& daemon_run(start, e1) is Some
            &&& daemon_action(daemon_run(start, e1)->0) == ActionView::InstallSignalHandler
            &&& daemon_run(start, e2) is Some
            &&& daemon_action(daemon_run(start, e2)->0) == ActionView::LoadConfig
            &&& daemon_run(start, e3) is Some
            &&& daemon_action(daemon_run(start, e3)->0) == ActionView::ReadMtime
            &&& daemon_run(start, e4) is Some
            &&& daemon_action(daemon_run(start, e4)->0) == ActionView::ReadClock
        }),
{
    lemma_startup(model, config, color, mtime);
}

/// The states of the startup.
proof fn lemma_startup(model: Model, config: ConfigView, color: Color, mtime: Option<i128>)
    requires
        model is QuadcastS || model is Duocast || model is Quadcast2,
        crate::config::resolve(config) == Ok::<Color, ConfigErrorView>(color),
    ensures
        ({
            let e0 = Seq::<EventView>::empty();
            let e1 = e0.push(EventView::Opened(model));
            let e2 = e1.push(EventView::HandlerInstalled);
            let e3 = e2.push(EventView::ConfigLoaded(config));
            let e4 = e3.push(EventView::Mtime(mtime));
            let start = DaemonView::Opening;
            &&& daemon_run(start, e1) == Some(DaemonView::Installing { model })
            &&& daemon_run(start, e2) == Some(DaemonView::Loading { model })
            &&& daemon_run(start, e3) == Some(DaemonView::FirstMtime { model, config, color })
            &&& daemon_run(start, e4) == Some(DaemonView::FirstClock { model, config, color, mtime })
        }),
{
    let start = DaemonView::Opening;
    let installing = DaemonView::Installing { model };
    let loading = DaemonView::Loading { model };
    let first_mtime = DaemonView::FirstMtime { model, config, color };
    let first_clock = DaemonView::FirstClock { model, config, color, mtime };
    let e0 = Seq::<EventView>::empty();
    let e1 = e0.push(EventView::Opened(model));
    let e2 = e1.push(EventView::HandlerInstalled);
    let e3 = e2.push(EventView::ConfigLoaded(config));
    lemma_daemon_turn(start, e0, start, EventView::Opened(model), installing);
    lemma_daemon_turn(start, e1, installing, EventView::HandlerInstalled, loading);
    lemma_daemon_turn(start, e2, loading, EventView::ConfigLoaded(config), first_mtime);
    lemma_daemon_turn(start, e3, first_mtime, EventView::Mtime(mtime), first_clock);
}

/// A run that came to `e` goes on to the state of the next turn.
proof fn lemma_daemon_turn(
    d: DaemonView,
    events: Seq<EventView>,
    e: DaemonView,
    event: EventView,
    state: DaemonView,
)
    requires
        daemon_run(d, events) == Some(e),
        daemon_next(e, event) is Next,
        daemon_next(e, event)->Next_state == state,
    ensures
        daemon_run(d, events.push(event)) == Some(state),
{
    lemma_daemon_push(d, events, event);
}

/// A run is made of turns: no events leave the daemon where it is, one more takes it one turn
/// further, and after its end nothing does.
pub proof fn law_daemon_run_is_made_of_turns(
    d: DaemonView,
    events: Seq<EventView>,
    event: EventView,
)
    ensures
        daemon_run(d, Seq::<EventView>::empty()) == Some(d),
        daemon_run(d, events) is None ==> daemon_run(d, events.push(event)) is None,
        daemon_run(d, events) matches Some(e) ==> {
            &&& daemon_next(e, event) is End <==> daemon_run(d, events.push(event)) is None
            &&& daemon_next(e, event) matches TurnView::Next { state, .. } ==> daemon_run(
                d,
                events.push(event),
            ) == Some(state)
        },
{
    lemma_daemon_push(d, events, event);
}

/// Before its loop the daemon takes each answer one stage further, and stays as it is, asking
/// again, on an event that is no answer. What it was told stays with it.
pub proof fn law_startup_goes_on(d: DaemonView, event: EventView)
    requires
        !(d is Looping),
    ensures
        daemon_next(d, event) matches TurnView::Next { state, log, action } ==> {
            &&& action == daemon_action(state)
            &&& match (d, event) {
                (DaemonView::Opening, EventView::Opened(model)) => state == (
                DaemonView::Installing { model }),
                (DaemonView::Installing { model }, EventView::HandlerInstalled) => state == (
                DaemonView::Loading { model }),
                (DaemonView::Loading { model }, EventView::ConfigLoaded(config)) => {
                    &&& state is FirstMtime
                    &&& state->FirstMtime_model == model
                    &&& state->FirstMtime_config == config
                    &&& crate::config::resolve(config) == Ok::<Color, ConfigErrorView>(
                        state->FirstMtime_color,
                    )
                },
                (DaemonView::FirstMtime { model, config, color }, EventView::Mtime(mtime)) => state
                    == (DaemonView::FirstClock { model, config, color, mtime }),
                (
                    DaemonView::FirstClock { model, config, color, mtime },
                    EventView::Clock(now),
                ) => {
                    &&& state is Looping
                    &&& state->lights.model == model
                    &&& state->lights.config == config
                    &&& state->lights.color == color
                    &&& state->lights.last_mtime == mtime
                    &&& state->lights.last_poll == now
                    &&& state->lights.point == LoopPoint::CheckRunning
                },
                _ => state == d,
            }
            &&& log is Some <==> d is FirstClock && event is Clock
            &&& log matches Some(line) ==> line == "[quadcastctl] daemon driving "@
                + crate::device::model_name(d->FirstClock_model) + " with #"@
                + crate::color::color_hex(d->FirstClock_color)
        },
{
}

/// Before its loop the daemon ends if and only if the microphone, the handler or the configuration
/// failed, the model is the Quadcast 2S, or the configuration does not resolve; it says which.
pub proof fn law_startup_ends(d: DaemonView, event: EventView)
    requires
        !(d is Looping),
    ensures
        daemon_next(d, event) is End <==> {
            ||| (d is Opening || d is Installing || d is Loading) && event is Failed
            ||| d is Opening && event == EventView::Opened(Model::Quadcast2S)
            ||| d is Loading && event is ConfigLoaded && crate::config::resolve(
                event->ConfigLoaded_0,
            ) is Err
        },
        daemon_next(d, event) matches TurnView::End { log, result } ==> {
            &&& log is None
            &&& event is Opened ==> result == Err::<(), FaultView>(FaultView::UnsupportedModel)
            &&& event matches EventView::Failed(reason) ==> result == Err::<(), FaultView>(
                FaultView::Work(reason),
            )
            &&& event matches EventView::ConfigLoaded(config) ==> result == Err::<(), FaultView>(
                FaultView::Config(crate::config::resolve(config)->Err_0),
            )
        },
{
}

/// The loop of the daemon is reached by its turns alone.
pub proof fn law_loop_turn_is_the_daemons(l: LightLoopView, event: EventView)
    ensures
        daemon_next(DaemonView::Looping { lights: l }, event) == loop_next(l, event),
        daemon_action(DaemonView::Looping { lights: l }) == loop_action(l),
{
}

/// What each point of the loop asks for, in figures: the packets, and a pause of 55 milliseconds.
pub proof fn law_loop_asks_for(l: LightLoopView)
    ensures
        l.point == LoopPoint::CheckRunning ==> loop_action(l) == ActionView::CheckRunning,
        l.point == LoopPoint::SendHeader ==> loop_action(l) == ActionView::Send(
            crate::packet::header_packet(),
        ),
        l.point == LoopPoint::SendData ==> loop_action(l) == ActionView::Send(
            crate::packet::solid_packet(l.color, l.color),
        ),
        l.point == LoopPoint::Sleeping ==> loop_action(l) == ActionView::Sleep(55_000),
        l.point == LoopPoint::CheckPoll || l.point == LoopPoint::StampPoll ==> loop_action(l)
            == ActionView::ReadClock,
        l.point == LoopPoint::CheckMtime ==> loop_action(l) == ActionView::ReadMtime,
        l.point == LoopPoint::Reload ==> loop_action(l) == ActionView::LoadConfig,
{
}

/// Where an answer takes the loop: a look at the configuration file is due when the clock has
/// gone back or a second has passed since the last one, and the file is loaded when its time of
/// change is another than before. An event that is no answer has the loop ask again.
pub proof fn law_loop_goes_on(l: LightLoopView, event: EventView)
    ensures
        loop_next(l, event) matches TurnView::Next { state, action, .. } ==> {
            &&& state is Looping
            &&& action == loop_action(state->lights)
            &&& state->lights.point == match (l.point, event) {
                (LoopPoint::CheckRunning, EventView::Running(_)) => LoopPoint::SendHeader,
                (LoopPoint::SendHeader, EventView::Sent(_)) => LoopPoint::SendData,
                (LoopPoint::SendData, EventView::Sent(_)) => LoopPoint::Sleeping,
                (LoopPoint::Sleeping, EventView::Slept) => LoopPoint::CheckPoll,
                (LoopPoint::CheckPoll, EventView::Clock(now)) => if now < l.last_poll || now
                    >= l.last_poll + 1_000_000_000 {
                    LoopPoint::StampPoll
                } else {
                    LoopPoint::CheckRunning
                },
                (LoopPoint::StampPoll, EventView::Clock(_)) => LoopPoint::CheckMtime,
                (LoopPoint::CheckMtime, EventView::Mtime(mtime)) => if mtime == l.last_mtime {
                    LoopPoint::CheckRunning
                } else {
                    LoopPoint::Reload
                },
                (LoopPoint::Reload, EventView::ConfigLoaded(_)) => LoopPoint::CheckRunning,
                (LoopPoint::Reload, EventView::Failed(_)) => LoopPoint::CheckRunning,
                _ => l.point,
            }
        },
{
}

/// What the loop keeps: the model always; the configuration and its color unless it loads one that
/// resolves; the time of the last look unless it begins another; the time of change unless it
/// reads it anew.
pub proof fn law_loop_keeps(l: LightLoopView, event: EventView)
    ensures
        loop_next(l, event) matches TurnView::Next { state, .. } ==> {
            let after = state->lights;
            let taken = l.point == LoopPoint::Reload && event is ConfigLoaded
                && crate::config::resolve(event->ConfigLoaded_0) is Ok;
            &&& after.model == l.model
            &&& taken ==> after.config == event->ConfigLoaded_0 && crate::config::resolve(
                event->ConfigLoaded_0,
            ) == Ok::<Color, ConfigErrorView>(after.color)
            &&& !taken ==> after.config == l.config && after.color == l.color
            &&& after.last_poll == (if l.point == LoopPoint::StampPoll && event is Clock {
                event->Clock_0
            } else {
                l.last_poll
            })
            &&& after.last_mtime == (if l.point == LoopPoint::CheckMtime && event is Mtime {
                event->Mtime_0
            } else {
                l.last_mtime
            })
        },
{
}

/// When the loop ends: well when it is interrupted, with a line that says so, and badly when a
/// packet could not be sent or not all of its 64 bytes were written. On no other event does it.
pub proof fn law_loop_ends(l: LightLoopView, event: EventView)
    ensures
        loop_next(l, event) is End <==> {
            ||| l.point == LoopPoint::CheckRunning && event == EventView::Running(false)
            ||| (l.point == LoopPoint::SendHeader || l.point == LoopPoint::SendData) && (
            event is Failed || (event is Sent && event->Sent_0 != 64))
        },
        loop_next(l, event) matches TurnView::End { log, result } ==> {
            &&& event is Running ==> result is Ok && log == Some(
                "[quadcastctl] daemon exiting cleanly"@,
            )
            &&& !(event is Running) ==> log is None
            &&& event matches EventView::Sent(sent) ==> result == Err::<(), FaultView>(
                FaultView::ShortTransfer(ShortTransfer { sent, expected: 64 }),
            )
            &&& event matches EventView::Failed(reason) ==> result == Err::<(), FaultView>(
                FaultView::Work(reason),
            )
        },
{
}

/// What the loop logs as it goes on: what came of loading the configuration, and nothing else.
pub proof fn law_loop_logs(l: LightLoopView, event: EventView)
    ensures
        loop_next(l, event) matches TurnView::Next { log, .. } ==> {
            &&& log is Some <==> l.point == LoopPoint::Reload && (event is ConfigLoaded
                || event is Failed)
            &&& log matches Some(line) ==> match event {
                EventView::ConfigLoaded(config) => match crate::config::resolve(config) {
                    Ok(color) => line == "[quadcastctl] reloaded config: color="@ + config.color
                        + " brightness="@ + crate::text::decimal(config.brightness as nat)
                        + " -> #"@ + crate::color::color_hex(color),
                    Err(e) => line == "[quadcastctl] config reload failed, keeping previous: "@
                        + crate::config::config_error_message(e),
                },
                EventView::Failed(reason) => line
                    == "[quadcastctl] config reload failed, keeping previous: "@ + reason,
                _ => false,
            }
        },
{
}

/// A look at the file that finds it unchanged leaves all but the time of the look as it was, and
/// the next round begins.
pub proof fn law_unchanged_file_is_left_alone(l: LightLoopView, now: i128, stamp: i128)
    requires
        l.point == LoopPoint::CheckPoll,
        now < l.last_poll || now >= l.last_poll + 1_000_000_000,
    ensures
        daemon_run(
            DaemonView::Looping { lights: l },
            seq![EventView::Clock(now), EventView::Clock(stamp), EventView::Mtime(l.last_mtime)],
        ) == Some(
            DaemonView::Looping {
                lights: LightLoopView { last_poll: stamp, point: LoopPoint::CheckRunning, ..l },
            },
        ),
{
    let d = DaemonView::Looping { lights: l };
    let e0 = Seq::<EventView>::empty();
    let e1 = e0.push(EventView::Clock(now));
    let e2 = e1.push(EventView::Clock(stamp));
    let e3 = e2.push(EventView::Mtime(l.last_mtime));
    lemma_daemon_push(d, e0, EventView::Clock(now));
    lemma_daemon_push(d, e1, EventView::Clock(stamp));
    lemma_daemon_push(d, e2, EventView::Mtime(l.last_mtime));
    assert(e3 =~= seq![
        EventView::Clock(now),
        EventView::Clock(stamp),
        EventView::Mtime(l.last_mtime),
    ]);
}

/// What the views of the daemon and of its loop hold is all that these hold.
pub proof fn law_daemon_views_keep_everything(d: Daemon, l: LightLoop)
    ensures
        l@.model == l.model,
        l@.config == l.config@,
        l@.color == l.color,
        l@.last_mtime == l.last_mtime,
        l@.last_poll == l.last_poll,
        l@.point == l.point,
        d is Opening <==> d@ is Opening,
        d is Installing <==> d@ is Installing,
        d is Loading <==> d@ is Loading,
        d is FirstMtime <==> d@ is FirstMtime,
        d is FirstClock <==> d@ is FirstClock,
        d is Looping <==> d@ is Looping,
        d matches Daemon::Installing { model } ==> d@ == (DaemonView::Installing { model }),
        d matches Daemon::Loading { model } ==> d@ == (DaemonView::Loading { model }),
        d matches Daemon::FirstMtime { model, config, color } ==> d@ == (DaemonView::FirstMtime {
            model,
            config: config@,
            color,
        }),
        d matches Daemon::FirstClock { model, config, color, mtime } ==> d@ == (
        DaemonView::FirstClock { model, config: config@, color, mtime }),
        d matches Daemon::Looping { lights } ==> d@ == (DaemonView::Looping { lights: lights@ }),
{
}

} // verus!
