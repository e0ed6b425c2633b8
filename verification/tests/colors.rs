use quadcastctl::color::{invalid_color, Color};
use quadcastctl::config::{
    cmd_set, cmd_show, default_brightness, load_config, save_config, save_config_in, saved_report,
    Config, ConfigError, SaveError,
};
use quadcastctl::paths::{config_dir, config_path, PathError};
use quadcastctl::tasks::Task;

fn color(r: u8, g: u8, b: u8) -> Color {
    Color { r, g, b }
}

#[test]
fn six_digits_are_red_green_blue() {
    assert_eq!(Color::from_hex("ff9a33").unwrap(), color(0xff, 0x9a, 0x33));
    assert_eq!(Color::from_hex("FF9A33").unwrap(), color(0xff, 0x9a, 0x33));
    assert_eq!(Color::from_hex("000000").unwrap(), color(0, 0, 0));
    assert_eq!(Color::from_hex("ffffff").unwrap(), color(255, 255, 255));
}

#[test]
fn hash_is_optional_but_only_one() {
    assert_eq!(Color::from_hex("#ff9a33").unwrap(), color(0xff, 0x9a, 0x33));
    assert_eq!(Color::from_hex("##ff9a33").unwrap_err().text, "#ff9a33");
    assert_eq!(Color::from_hex("##f").unwrap_err().text, "#f");
}

#[test]
fn fewer_digits_are_the_low_ones() {
    assert_eq!(Color::from_hex("f").unwrap(), color(0, 0, 15));
    assert_eq!(Color::from_hex("#abc").unwrap(), color(0, 0x0a, 0xbc));
    assert_eq!(Color::from_hex("12345").unwrap(), color(1, 0x23, 0x45));
}

#[test]
fn other_texts_are_no_colors() {
    for text in ["", "#", "1234567", "#1234567", "+1", "-1", "0x1", "fg", "f f", "\u{e9}"] {
        assert!(Color::from_hex(text).is_err(), "{}", text);
    }
    assert_eq!(Color::from_hex("").unwrap_err().text, "");
    assert_eq!(Color::from_hex("1234567").unwrap_err().text, "1234567");
}

#[test]
fn color_error_quotes_the_text() {
    let message = Color::from_hex("#a\"b\n").unwrap_err().message();
    assert_eq!(message, "invalid hex color \"a\\\"b\\n\": expected 1-6 hex digits");
    assert_eq!(invalid_color("X"), "invalid hex color X: expected 1-6 hex digits");
}

#[test]
fn scaling_rounds_down() {
    assert_eq!(color(255, 10, 3).scaled(50), color(127, 5, 1));
    assert_eq!(color(255, 154, 51).scaled(33), color(84, 50, 16));
}

#[test]
fn full_and_zero_brightness() {
    assert_eq!(color(255, 10, 3).scaled(100), color(255, 10, 3));
    assert_eq!(color(255, 10, 3).scaled(0), color(0, 0, 0));
}

#[test]
fn brightness_is_monotone_up_to_full() {
    let mut last: u8 = 0;
    for brightness in 0..=100u8 {
        let r = color(201, 0, 0).scaled(brightness).r;
        assert!(last <= r && r <= 201);
        last = r;
    }
}

#[test]
fn scaling_above_full_wraps() {
    assert_eq!(color(255, 0, 100).scaled(255), color(138, 0, 255));
    assert_eq!(color(255, 1, 2).scaled(101), color(1, 1, 2));
}

fn config(text: &str, brightness: u8) -> Config {
    Config { color: text.to_string(), brightness }
}

#[test]
fn default_config_is_full_amber() {
    let cfg = Config::default();
    assert_eq!(cfg.color, "ff9a33");
    assert_eq!(cfg.brightness, 100);
    assert_eq!(default_brightness(), 100);
    assert_eq!(cfg.resolved().unwrap(), color(0xff, 0x9a, 0x33));
}

#[test]
fn resolved_scales_the_color() {
    assert_eq!(config("#646464", 50).resolved().unwrap(), color(50, 50, 50));
}

#[test]
fn brightness_is_checked_before_the_color() {
    let e = config("no color", 101).resolved().unwrap_err();
    assert!(matches!(e, ConfigError::Brightness));
    assert_eq!(e.message(), "brightness must be 0-100");
    let e = config("#no color", 100).resolved().unwrap_err();
    assert_eq!(e.message(), "invalid hex color \"no color\": expected 1-6 hex digits");
}

#[test]
fn missing_file_gives_the_default() {
    let cfg = load_config::<String>(None).unwrap();
    assert_eq!(cfg.color, "ff9a33");
    let cfg = load_config::<String>(Some(Ok(config("f", 7)))).unwrap();
    assert_eq!((cfg.color.as_str(), cfg.brightness), ("f", 7));
    assert_eq!(load_config(Some(Err("broken"))).unwrap_err(), "broken");
}

#[test]
fn set_accepts_what_resolves() {
    let cfg = cmd_set("#00FF00", 40).unwrap();
    assert_eq!(cfg.color, "00FF00");
    assert_eq!(cfg.brightness, 40);
    assert_eq!(cfg.resolved().unwrap(), color(0, 102, 0));
    assert!(matches!(cmd_set("00ff00", 101), Err(ConfigError::Brightness)));
    assert!(matches!(cmd_set("green", 100), Err(ConfigError::Color(_))));
}

#[test]
fn saved_report_names_everything() {
    assert_eq!(
        saved_report("/c/config.toml", &config("ff0000", 5)),
        "wrote /c/config.toml (color=ff0000, brightness=5)"
    );
}

#[test]
fn show_prints_the_file_or_the_default() {
    assert_eq!(cmd_show("/c", Some("a = 1\n"), "d"), "/c:\na = 1\n\n");
    assert_eq!(cmd_show("/c", None, "d\n"), "no config at /c (using defaults)\nd\n\n");
}

#[test]
fn set_holds_the_color_without_its_hash() {
    let cfg = cmd_set("#ff9a33", 100).unwrap();
    assert_eq!((cfg.color.as_str(), cfg.brightness), ("ff9a33", 100));
    assert_eq!(cfg.resolved().unwrap(), config("#ff9a33", 100).resolved().unwrap());
    assert_eq!(cmd_set("ff9a33", 100).unwrap().color, "ff9a33");
    assert!(matches!(cmd_set("##ff9a33", 100), Err(ConfigError::Color(e)) if e.text == "#ff9a33"));
}

fn base() -> Option<Vec<u8>> {
    Some(b"/c".to_vec())
}

fn text() -> Result<String, String> {
    Ok("text".to_string())
}

fn makes_only_the_directory(tasks: &[Task]) -> bool {
    tasks.len() == 1 && matches!(&tasks[0], Task::CreateDir { path } if path == b"/c/quadcastctl")
}

#[test]
fn saving_makes_the_directory_first() {
    let (tasks, rest) = save_config_in(base(), base(), text()).unwrap();
    assert!(rest.is_ok());
    assert_eq!(tasks.len(), 2);
    assert!(makes_only_the_directory(&tasks[..1]));
    assert!(matches!(&tasks[1], Task::WriteFile { path, contents }
        if path == b"/c/quadcastctl/config.toml" && contents == "text"));
}

#[test]
fn directory_is_made_even_without_a_file() {
    let missing: Result<String, &str> = Err("serializing");
    let (tasks, rest) = save_config_in(base(), base(), missing.clone()).unwrap();
    assert!(makes_only_the_directory(&tasks));
    assert!(matches!(rest, Err(SaveError::Text("serializing"))));
    let (tasks, rest) = save_config_in(base(), None, missing).unwrap();
    assert!(makes_only_the_directory(&tasks));
    assert!(matches!(rest, Err(SaveError::Path(PathError::NoConfigDir))));
}

#[test]
fn nothing_is_made_without_a_directory() {
    assert_eq!(save_config_in(None, base(), text()).unwrap_err(), PathError::NoConfigDir);
}

#[test]
fn saving_uses_the_configuration_paths() {
    match save_config(text()) {
        Ok((tasks, rest)) => {
            let dir = config_dir().unwrap();
            let file = config_path().unwrap();
            assert!(rest.is_ok());
            assert!(matches!(&tasks[0], Task::CreateDir { path } if *path == dir));
            assert!(matches!(&tasks[1], Task::WriteFile { path, .. } if *path == file));
        }
        Err(e) => assert_eq!(e.message(), "no config dir on this platform"),
    }
}
