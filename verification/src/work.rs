//! What the loops that drive the lights ask of the outside, and what they hear back.
//!
//! A loop is a state. It asks for one piece of work at a time, hears in an event what came of it,
//! and answers with a turn: the next state and the next piece of work, or the end.

use vstd::prelude::*;
use crate::config::{Config, ConfigError, ConfigErrorView, ConfigView};
use crate::device::Model;
use crate::packet::{ShortTransfer, PACKET_SIZE};

verus! {

/// The pause between two frames, in microseconds.
pub const REFRESH_INTERVAL_MICROS: u64 = 55_000;

/// The time between two looks at the configuration file, in nanoseconds.
pub const CONFIG_POLL_INTERVAL_NANOS: i128 = 1_000_000_000;

/// A piece of work for the outside. None of it writes a file.
#[derive(Debug)]
pub enum Action {
    /// Find the microphone, open it and claim its interfaces.
    OpenMic,
    /// Have the user's interrupt clear the running flag.
    InstallSignalHandler,
    /// Read the configuration file.
    LoadConfig,
    /// Read when the configuration file was last changed.
    ReadMtime,
    ReadClock,
    /// Read the running flag.
    CheckRunning,
    /// Send one packet to the microphone.
    Send([u8; PACKET_SIZE]),
    /// Sleep for this many microseconds.
    Sleep(u64),
}

pub enum ActionView {
    OpenMic,
    InstallSignalHandler,
    LoadConfig,
    ReadMtime,
    ReadClock,
    CheckRunning,
    Send(Seq<u8>),
    Sleep(u64),
}

impl View for Action {
    type V = ActionView;

    open spec fn view(&self) -> ActionView {
        match self {
            Action::OpenMic => ActionView::OpenMic,
            Action::InstallSignalHandler => ActionView::InstallSignalHandler,
            Action::LoadConfig => ActionView::LoadConfig,
            Action::ReadMtime => ActionView::ReadMtime,
            Action::ReadClock => ActionView::ReadClock,
            Action::CheckRunning => ActionView::CheckRunning,
            Action::Send(packet) => ActionView::Send(packet@),
            Action::Sleep(micros) => ActionView::Sleep(*micros),
        }
    }
}

/// What came of a piece of work. Points in time are nanoseconds since the Unix epoch.
#[derive(Debug)]
pub enum Event {
    Opened(Model),
    HandlerInstalled,
    ConfigLoaded(Config),
    /// When the configuration file was last changed, if that can be told.
    Mtime(Option<i128>),
    Clock(i128),
    /// The running flag.
    Running(bool),
    /// This many bytes of the packet were written.
    Sent(usize),
    Slept,
    /// The work failed, with the reason in words.
    Failed(String),
}

pub enum EventView {
    Opened(Model),
    HandlerInstalled,
    ConfigLoaded(ConfigView),
    Mtime(Option<i128>),
    Clock(i128),
    Running(bool),
    Sent(usize),
    Slept,
    Failed(Seq<char>),
}

impl View for Event {
    type V = EventView;

    open spec fn view(&self) -> EventView {
        match self {
            Event::Opened(model) => EventView::Opened(*model),
            Event::HandlerInstalled => EventView::HandlerInstalled,
            Event::ConfigLoaded(cfg) => EventView::ConfigLoaded(cfg@),
            Event::Mtime(mtime) => EventView::Mtime(*mtime),
            Event::Clock(now) => EventView::Clock(*now),
            Event::Running(running) => EventView::Running(*running),
            Event::Sent(sent) => EventView::Sent(*sent),
            Event::Slept => EventView::Slept,
            Event::Failed(reason) => EventView::Failed(reason@),
        }
    }
}

/// Why a loop ended early.
#[derive(Debug)]
pub enum Fault {
    /// The microphone speaks a protocol that is not spoken here.
    UnsupportedModel,
    Config(ConfigError),
    ShortTransfer(ShortTransfer),
    /// A piece of work failed, with the reason in words.
    Work(String),
}

pub enum FaultView {
    UnsupportedModel,
    Config(ConfigErrorView),
    ShortTransfer(ShortTransfer),
    Work(Seq<char>),
}

impl View for Fault {
    type V = FaultView;

    open spec fn view(&self) -> FaultView {
        match self {
            Fault::UnsupportedModel => FaultView::UnsupportedModel,
            Fault::Config(e) => FaultView::Config(e@),
            Fault::ShortTransfer(e) => FaultView::ShortTransfer(*e),
            Fault::Work(reason) => FaultView::Work(reason@),
        }
    }
}

pub open spec fn fault_message(f: FaultView) -> Seq<char> {
    match f {
        FaultView::UnsupportedModel =>
            "Quadcast 2S uses a different protocol \u{2014} not implemented yet"@,
        FaultView::Config(e) => crate::config::config_error_message(e),
        FaultView::ShortTransfer(e) => crate::packet::short_transfer_message(e),
        FaultView::Work(reason) => reason,
    }
}

impl Fault {
    /// The fault in words.
    pub fn message(&self) -> (m: String)
        ensures
            m@ == fault_message(self@),
            self is UnsupportedModel ==> m@
                == "Quadcast 2S uses a different protocol \u{2014} not implemented yet"@,
            self matches Fault::Work(reason) ==> m@ == reason@,
            self matches Fault::ShortTransfer(e) ==> m@ == "short control transfer: "@
                + crate::text::decimal(e.sent as nat) + " of "@ + crate::text::decimal(
                e.expected as nat,
            ),
            self matches Fault::Config(ConfigError::Brightness) ==> m@
                == "brightness must be 0-100"@,
            self matches Fault::Config(ConfigError::Color(e)) ==> m@ == "invalid hex color "@
                + crate::text::debug_quoted(e.text@) + ": expected 1-6 hex digits"@,
    {
        match self {
            Fault::UnsupportedModel =>
                "Quadcast 2S uses a different protocol \u{2014} not implemented yet".to_owned(),
            Fault::Config(e) => e.message(),
            Fault::ShortTransfer(e) => e.message(),
            Fault::Work(reason) => reason.clone(),
        }
    }
}

/// How a loop goes on after an event. The line to log comes before the work.
#[derive(Debug)]
pub enum Turn<S> {
    Next { state: S, log: Option<String>, action: Action },
    End { log: Option<String>, result: Result<(), Fault> },
}

pub enum TurnView<S> {
    Next { state: S, log: Option<Seq<char>>, action: ActionView },
    End { log: Option<Seq<char>>, result: Result<(), FaultView> },
}

pub open spec fn log_view(log: Option<String>) -> Option<Seq<char>> {
    match log {
        Some(line) => Some(line@),
        None => None,
    }
}

impl<S: View> View for Turn<S> {
    type V = TurnView<S::V>;

    open spec fn view(&self) -> TurnView<S::V> {
        match self {
            Turn::Next { state, log, action } => TurnView::Next {
                state: state@,
                log: log_view(*log),
                action: action@,
            },
            Turn::End { log, result } => TurnView::End {
                log: log_view(*log),
                result: match result {
                    Ok(_) => Ok(()),
                    Err(f) => Err(f@),
                },
            },
        }
    }
}

/// The microphone speaks the protocol of [`crate::packet`]: all do but the Quadcast 2S.
pub open spec fn is_supported(model: Model) -> bool {
    model != Model::Quadcast2S
}

/// Tells whether the lights of `model` can be driven.
pub fn supported(model: Model) -> (r: bool)
    ensures
        r == is_supported(model),
        r <==> model is QuadcastS || model is Duocast || model is Quadcast2,
{
    !matches!(model, Model::Quadcast2S)
}

/// A packet that was handed to the microphone, and whether all of it was written.
pub struct Transfer {
    pub packet: Seq<u8>,
    pub whole: bool,
}

/// The transfer that an event reports, if it is the answer to a packet to send.
pub open spec fn transfer_of(action: ActionView, event: EventView) -> Option<Transfer> {
    match (action, event) {
        (ActionView::Send(packet), EventView::Sent(sent)) => Some(
            Transfer { packet, whole: sent == PACKET_SIZE },
        ),
        (ActionView::Send(packet), EventView::Failed(_)) => Some(Transfer { packet, whole: false }),
        _ => None,
    }
}

/// The Quadcast 2S is the one model that is not supported.
pub proof fn law_supported_models(model: Model)
    ensures
        is_supported(model) <==> model is QuadcastS || model is Duocast || model is Quadcast2,
{
}

/// A frame comes every 55 milliseconds, a look at the configuration file every second.
pub proof fn law_intervals()
    ensures
        REFRESH_INTERVAL_MICROS == 55_000,
        CONFIG_POLL_INTERVAL_NANOS == 1_000_000_000,
{
}

/// The view of an action tells which it is and what it carries.
pub proof fn law_action_view_keeps_everything(a: Action)
    ensures
        a is OpenMic <==> a@ is OpenMic,
        a is InstallSignalHandler <==> a@ is InstallSignalHandler,
        a is LoadConfig <==> a@ is LoadConfig,
        a is ReadMtime <==> a@ is ReadMtime,
        a is ReadClock <==> a@ is ReadClock,
        a is CheckRunning <==> a@ is CheckRunning,
        a is Send <==> a@ is Send,
        a is Sleep <==> a@ is Sleep,
        a matches Action::Send(packet) ==> a@->Send_0 == packet@,
        a matches Action::Sleep(micros) ==> a@->Sleep_0 == micros,
{
}

/// The view of an event tells which it is and what it carries.
pub proof fn law_event_view_keeps_everything(e: Event)
    ensures
        e is Opened <==> e@ is Opened,
        e is HandlerInstalled <==> e@ is HandlerInstalled,
        e is ConfigLoaded <==> e@ is ConfigLoaded,
        e is Mtime <==> e@ is Mtime,
        e is Clock <==> e@ is Clock,
        e is Running <==> e@ is Running,
        e is Sent <==> e@ is Sent,
        e is Slept <==> e@ is Slept,
        e is Failed <==> e@ is Failed,
        e matches Event::Opened(model) ==> e@->Opened_0 == model,
        e matches Event::ConfigLoaded(cfg) ==> e@->ConfigLoaded_0 == cfg@,
        e matches Event::Mtime(mtime) ==> e@->Mtime_0 == mtime,
        e matches Event::Clock(now) ==> e@->Clock_0 == now,
        e matches Event::Running(running) ==> e@->Running_0 == running,
        e matches Event::Sent(sent) ==> e@->Sent_0 == sent,
        e matches Event::Failed(reason) ==> e@->Failed_0 == reason@,
{
}

/// The view of a fault tells which it is and what it carries.
pub proof fn law_fault_view_keeps_everything(f: Fault)
    ensures
        f is UnsupportedModel <==> f@ is UnsupportedModel,
        f is Config <==> f@ is Config,
        f is ShortTransfer <==> f@ is ShortTransfer,
        f is Work <==> f@ is Work,
        f matches Fault::Config(e) ==> f@->Config_0 == e@,
        f matches Fault::ShortTransfer(e) ==> f@->ShortTransfer_0 == e,
        f matches Fault::Work(reason) ==> f@->Work_0 == reason@,
{
}

/// The view of a turn tells whether the loop goes on, and keeps its state, its work, its log and
/// its result.
pub proof fn law_turn_view_keeps_everything<S: View>(t: Turn<S>)
    ensures
        t is Next <==> t@ is Next,
        t matches Turn::Next { state, log, action } ==> {
            &&& t@->Next_state == state@
            &&& t@->Next_action == action@
            &&& log is Some <==> t@->Next_log is Some
            &&& log matches Some(line) ==> t@->Next_log->0 == line@
        },
        t matches Turn::End { log, result } ==> {
            &&& log is Some <==> t@->End_log is Some
            &&& log matches Some(line) ==> t@->End_log->0 == line@
            &&& result is Ok <==> t@->End_result is Ok
            &&& result matches Err(f) ==> t@->End_result->Err_0 == f@
        },
{
}

/// A transfer is reported by the answer to a packet to send, and by nothing else; it is whole if
/// and only if 64 bytes were written.
pub proof fn law_transfer_is_the_answer_to_a_packet(action: ActionView, event: EventView)
    ensures
        transfer_of(action, event) is Some <==> action is Send && (event is Sent || event is Failed),
        transfer_of(action, event) matches Some(t) ==> {
            &&& t.packet == action->Send_0
            &&& t.whole <==> event == EventView::Sent(64)
        },
{
}

/// The messages of the faults, word by word.
pub proof fn law_fault_words(f: FaultView)
    ensures
        f is UnsupportedModel ==> fault_message(f)
            == "Quadcast 2S uses a different protocol \u{2014} not implemented yet"@,
        f matches FaultView::Work(reason) ==> fault_message(f) == reason,
        f matches FaultView::Config(e) ==> fault_message(f) == crate::config::config_error_message(
            e,
        ),
        f matches FaultView::ShortTransfer(e) ==> fault_message(f) == "short control transfer: "@
            + crate::text::decimal(e.sent as nat) + " of "@ + crate::text::decimal(
            e.expected as nat,
        ),
{
}

} // verus!
