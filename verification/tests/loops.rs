use quadcastctl::color::Color;
use quadcastctl::config::Config;
use quadcastctl::daemon::{cmd_daemon, poll_due, Daemon};
use quadcastctl::device::Model;
use quadcastctl::drive::{drive_lights, Drive};
use quadcastctl::packet::{build_header_packet, build_solid_packet};
use quadcastctl::solid::{cmd_solid, Solid};
use quadcastctl::work::{supported, Action, Event, Fault, Turn};

const RED: Color = Color { r: 255, g: 0, b: 0 };

fn next<S>(turn: Turn<S>) -> (S, Option<String>, Action) {
    match turn {
        Turn::Next { state, log, action } => (state, log, action),
        Turn::End { .. } => panic!("ended"),
    }
}

fn end<S>(turn: Turn<S>) -> (Option<String>, Result<(), Fault>) {
    match turn {
        Turn::Next { .. } => panic!("went on"),
        Turn::End { log, result } => (log, result),
    }
}

fn is_header(action: &Action) -> bool {
    matches!(action, Action::Send(packet) if *packet == build_header_packet())
}

fn shows(action: &Action, color: Color) -> bool {
    matches!(action, Action::Send(packet) if *packet == build_solid_packet(color, color))
}

#[test]
fn drive_repeats_its_round() {
    let d = drive_lights(RED, None);
    assert!(matches!(d.action(), Action::CheckRunning));
    let (d, _, a) = next(d.step(Event::Running(true)));
    assert!(is_header(&a));
    let (d, _, a) = next(d.step(Event::Sent(64)));
    assert!(shows(&a, RED));
    let (d, _, a) = next(d.step(Event::Sent(64)));
    assert!(matches!(a, Action::Sleep(55_000)));
    let (d, _, a) = next(d.step(Event::Slept));
    assert!(matches!(a, Action::CheckRunning));
    assert_eq!(d, drive_lights(RED, None));
}

#[test]
fn drive_ends_when_interrupted() {
    let (log, result) = end(drive_lights(RED, None).step(Event::Running(false)));
    assert!(log.is_none());
    assert!(result.is_ok());
}

#[test]
fn drive_ends_at_its_deadline() {
    let (d, _, a) = next(drive_lights(RED, Some(100)).step(Event::Running(true)));
    assert!(matches!(a, Action::ReadClock));
    assert!(is_header(&next(d.step(Event::Clock(99))).2));
    assert!(end(d.step(Event::Clock(100))).1.is_ok());
}

fn at_header() -> Drive {
    next(drive_lights(RED, None).step(Event::Running(true))).0
}

#[test]
fn drive_ends_on_a_short_transfer() {
    let fault = end(at_header().step(Event::Sent(63))).1.unwrap_err();
    assert_eq!(fault.message(), "short control transfer: 63 of 64");
    let (d, _, _) = next(at_header().step(Event::Sent(64)));
    let fault = end(d.step(Event::Sent(0))).1.unwrap_err();
    assert_eq!(fault.message(), "short control transfer: 0 of 64");
}

#[test]
fn drive_ends_on_a_failed_transfer() {
    let fault = end(at_header().step(Event::Failed("control transfer: gone".to_string()))).1.unwrap_err();
    assert_eq!(fault.message(), "control transfer: gone");
}

#[test]
fn drive_asks_again_after_another_event() {
    let (d, log, a) = next(at_header().step(Event::Slept));
    assert_eq!(d, at_header());
    assert!(log.is_none());
    assert!(is_header(&a));
}

#[test]
fn only_the_quadcast_2s_is_not_supported() {
    assert!(supported(Model::QuadcastS));
    assert!(supported(Model::Duocast));
    assert!(supported(Model::Quadcast2));
    assert!(!supported(Model::Quadcast2S));
}

#[test]
fn solid_resolves_before_it_opens() {
    assert_eq!(cmd_solid("ff0000", 101).unwrap_err().message(), "brightness must be 0-100");
    assert!(cmd_solid("red", 100).is_err());
    let s = cmd_solid("#ff0000", 100).unwrap();
    assert_eq!(s, Solid::Opening { color: RED });
    assert!(matches!(s.action(), Action::OpenMic));
}

#[test]
fn solid_drives_until_interrupted() {
    let s = cmd_solid("ff0000", 50).unwrap();
    let (s, log, a) = next(s.step(Event::Opened(Model::QuadcastS)));
    assert_eq!(log.unwrap(), "Driving HyperX Quadcast S with solid #7f0000. Ctrl-C to stop.");
    assert!(matches!(a, Action::InstallSignalHandler));
    let (s, _, a) = next(s.step(Event::HandlerInstalled));
    assert!(matches!(a, Action::CheckRunning));
    let (s, _, a) = next(s.step(Event::Running(true)));
    assert!(is_header(&a));
    let (s, _, a) = next(s.step(Event::Sent(64)));
    assert!(shows(&a, Color { r: 127, g: 0, b: 0 }));
    let (s, _, _) = next(s.step(Event::Sent(64)));
    let (s, _, _) = next(s.step(Event::Slept));
    let (log, result) = end(s.step(Event::Running(false)));
    assert_eq!(log.unwrap(), "Stopped.");
    assert!(result.is_ok());
}

#[test]
fn solid_refuses_the_quadcast_2s() {
    let s = cmd_solid("ff0000", 50).unwrap();
    let (log, result) = end(s.step(Event::Opened(Model::Quadcast2S)));
    assert!(log.is_none());
    assert_eq!(
        result.unwrap_err().message(),
        "Quadcast 2S uses a different protocol — not implemented yet"
    );
}

#[test]
fn solid_ends_when_opening_or_installing_fails() {
    let s = cmd_solid("ff0000", 50).unwrap();
    let fault = end(s.step(Event::Failed("no device".to_string()))).1.unwrap_err();
    assert!(matches!(&fault, Fault::Work(reason) if reason == "no device"));
    let (s, _, _) = next(s.step(Event::Opened(Model::Duocast)));
    assert!(end(s.step(Event::Failed("handler".to_string()))).1.is_err());
}

#[test]
fn poll_is_due_after_a_second_or_a_set_back_clock() {
    assert!(!poll_due(5, 5));
    assert!(!poll_due(0, 999_999_999));
    assert!(poll_due(0, 1_000_000_000));
    assert!(poll_due(5, 4));
    assert!(poll_due(i128::MIN, i128::MAX));
}

fn config(text: &str, brightness: u8) -> Config {
    Config { color: text.to_string(), brightness }
}

fn started() -> Daemon {
    let d = cmd_daemon();
    assert!(matches!(d.action(), Action::OpenMic));
    let (d, log, a) = next(d.step(Event::Opened(Model::Quadcast2)));
    assert!(log.is_none());
    assert!(matches!(a, Action::InstallSignalHandler));
    let (d, _, a) = next(d.step(Event::HandlerInstalled));
    assert!(matches!(a, Action::LoadConfig));
    let (d, _, a) = next(d.step(Event::ConfigLoaded(config("ff0000", 100))));
    assert!(matches!(a, Action::ReadMtime));
    let (d, _, a) = next(d.step(Event::Mtime(Some(10))));
    assert!(matches!(a, Action::ReadClock));
    let (d, log, a) = next(d.step(Event::Clock(0)));
    assert_eq!(log.unwrap(), "[quadcastctl] daemon driving HyperX Quadcast 2 with #ff0000");
    assert!(matches!(a, Action::CheckRunning));
    d
}

fn frame(d: Daemon, color: Color) -> Daemon {
    let (d, _, a) = next(d.step(Event::Running(true)));
    assert!(is_header(&a));
    let (d, _, a) = next(d.step(Event::Sent(64)));
    assert!(shows(&a, color));
    let (d, _, a) = next(d.step(Event::Sent(64)));
    assert!(matches!(a, Action::Sleep(55_000)));
    let (d, _, a) = next(d.step(Event::Slept));
    assert!(matches!(a, Action::ReadClock));
    d
}

fn looked(d: Daemon, now: i128, mtime: Option<i128>) -> (Daemon, Action) {
    let (d, _, a) = next(d.step(Event::Clock(now)));
    assert!(matches!(a, Action::ReadClock));
    let (d, _, a) = next(d.step(Event::Clock(now + 1)));
    assert!(matches!(a, Action::ReadMtime));
    let (d, log, a) = next(d.step(Event::Mtime(mtime)));
    assert!(log.is_none());
    (d, a)
}

#[test]
fn daemon_refuses_the_quadcast_2s() {
    let fault = end(cmd_daemon().step(Event::Opened(Model::Quadcast2S))).1.unwrap_err();
    assert!(matches!(fault, Fault::UnsupportedModel));
}

#[test]
fn daemon_needs_a_configuration_that_resolves() {
    let (d, _, _) = next(cmd_daemon().step(Event::Opened(Model::Duocast)));
    let (d, _, _) = next(d.step(Event::HandlerInstalled));
    let fault = end(d.step(Event::ConfigLoaded(config("ff0000", 101)))).1.unwrap_err();
    assert_eq!(fault.message(), "brightness must be 0-100");
}

#[test]
fn daemon_ends_when_it_cannot_start() {
    let fault = end(cmd_daemon().step(Event::Failed("x".to_string()))).1.unwrap_err();
    assert_eq!(fault.message(), "x");
    let (d, _, _) = next(cmd_daemon().step(Event::Opened(Model::Duocast)));
    let (d, _, _) = next(d.step(Event::HandlerInstalled));
    assert!(end(d.step(Event::Failed("parsing".to_string()))).1.is_err());
}

#[test]
fn daemon_does_not_look_before_a_second() {
    let d = frame(started(), RED);
    let (d, _, a) = next(d.step(Event::Clock(999_999_999)));
    assert!(matches!(a, Action::CheckRunning));
    frame(d, RED);
}

#[test]
fn daemon_leaves_an_unchanged_file() {
    let (d, a) = looked(frame(started(), RED), 1_000_000_000, Some(10));
    assert!(matches!(a, Action::CheckRunning));
    let d = frame(d, RED);
    assert!(matches!(next(d.step(Event::Clock(2_000_000_000))).2, Action::CheckRunning));
}

#[test]
fn daemon_takes_up_a_change() {
    let (d, a) = looked(frame(started(), RED), 1_000_000_000, Some(11));
    assert!(matches!(a, Action::LoadConfig));
    let (d, log, a) = next(d.step(Event::ConfigLoaded(config("0000ff", 50))));
    assert_eq!(
        log.unwrap(),
        "[quadcastctl] reloaded config: color=0000ff brightness=50 -> #00007f"
    );
    assert!(matches!(a, Action::CheckRunning));
    frame(d, Color { r: 0, g: 0, b: 127 });
}

#[test]
fn daemon_keeps_its_color_when_reloading_fails() {
    let (d, _) = looked(frame(started(), RED), 1_000_000_000, None);
    let (d, log, _) = next(d.step(Event::Failed("parsing f: bad".to_string())));
    assert_eq!(
        log.unwrap(),
        "[quadcastctl] config reload failed, keeping previous: parsing f: bad"
    );
    let (d, a) = looked(frame(d, RED), 3_000_000_000, None);
    assert!(matches!(a, Action::CheckRunning));
    let (d, _) = looked(frame(d, RED), 5_000_000_000, Some(12));
    let (d, log, _) = next(d.step(Event::ConfigLoaded(config("ff00", 200))));
    assert_eq!(
        log.unwrap(),
        "[quadcastctl] config reload failed, keeping previous: brightness must be 0-100"
    );
    frame(d, RED);
}

#[test]
fn daemon_exits_cleanly_when_interrupted() {
    let (log, result) = end(started().step(Event::Running(false)));
    assert_eq!(log.unwrap(), "[quadcastctl] daemon exiting cleanly");
    assert!(result.is_ok());
}

#[test]
fn daemon_ends_on_a_failed_or_short_transfer() {
    let (d, _, _) = next(started().step(Event::Running(true)));
    assert!(end(d.step(Event::Failed("gone".to_string()))).1.is_err());
    let (d, _, _) = next(started().step(Event::Running(true)));
    let (d, _, _) = next(d.step(Event::Sent(64)));
    let fault = end(d.step(Event::Sent(65))).1.unwrap_err();
    assert_eq!(fault.message(), "short control transfer: 65 of 64");
}

#[test]
fn daemon_asks_again_after_another_event() {
    let (d, log, a) = next(cmd_daemon().step(Event::Slept));
    assert!(matches!(d, Daemon::Opening));
    assert!(log.is_none());
    assert!(matches!(a, Action::OpenMic));
}

#[test]
fn logged_digits_read_back() {
    let s = cmd_solid("#abcdef", 37).unwrap();
    let (s, log, _) = next(s.step(Event::Opened(Model::Duocast)));
    let log = log.unwrap();
    let digits = log.split("solid ").nth(1).unwrap().split('.').next().unwrap();
    assert_eq!(digits, "#3f4b58");
    assert_eq!(s, Solid::Installing { color: Color::from_hex(digits).unwrap() });
}

#[test]
fn daemon_transfers_alternate_and_end_in_pairs() {
    let mut d = started();
    let mut clock: i128 = 0;
    let mut sent: Vec<[u8; 64]> = Vec::new();
    let mut rounds = 0;
    let mut action = d.action();
    loop {
        let event = match action {
            Action::CheckRunning => {
                rounds += 1;
                Event::Running(rounds <= 4)
            }
            Action::Send(packet) => {
                sent.push(packet);
                Event::Sent(64)
            }
            Action::Sleep(_) => Event::Slept,
            Action::ReadClock => {
                clock += 600_000_000;
                Event::Clock(clock)
            }
            Action::ReadMtime => Event::Mtime(Some(11)),
            Action::LoadConfig => Event::ConfigLoaded(config("0000ff", 100)),
            _ => panic!("unexpected work"),
        };
        match d.step(event) {
            Turn::Next { state, action: work, .. } => {
                d = state;
                action = work;
            }
            Turn::End { result, .. } => {
                assert!(result.is_ok());
                break;
            }
        }
    }
    assert_eq!(sent.len(), 8);
    let blue = Color { r: 0, g: 0, b: 255 };
    for (i, packet) in sent.iter().enumerate() {
        let color = if i < 4 { RED } else { blue };
        let expected =
            if i % 2 == 0 { build_header_packet() } else { build_solid_packet(color, color) };
        assert_eq!(*packet, expected);
    }
}
