//! The persisted configuration and the commands that set and show it.

use vstd::prelude::*;
use vstd::string::StringExecFns;
use crate::color::{without_hash, Color, ColorError};
use crate::paths::{config_dir_in, config_path_in, user_config_dir, PathError};
use crate::tasks::{Task, TaskView};
use crate::text::push_decimal;

verus! {

/// The brightness of a configuration that gives none, in percent.
pub const DEFAULT_BRIGHTNESS: u8 = 100;

/// The highest brightness, in percent.
pub const MAX_BRIGHTNESS: u8 = 100;

/// What the user asked for.
#[derive(Debug)]
pub struct Config {
    /// Hex color (no `#`). Only a file that was edited by hand has a `#` here; it is passed over.
    pub color: String,
    /// Brightness 0-100.
    pub brightness: u8,
}

pub struct ConfigView {
    pub color: Seq<char>,
    pub brightness: u8,
}

impl View for Config {
    type V = ConfigView;

    open spec fn view(&self) -> ConfigView {
        ConfigView { color: self.color@, brightness: self.brightness }
    }
}

/// Why a configuration gives no color.
#[derive(Debug)]
pub enum ConfigError {
    Brightness,
    Color(ColorError),
}

pub enum ConfigErrorView {
    Brightness,
    /// The text that is no color, without its `#`.
    Color(Seq<char>),
}

impl View for ConfigError {
    type V = ConfigErrorView;

    open spec fn view(&self) -> ConfigErrorView {
        match self {
            ConfigError::Brightness => ConfigErrorView::Brightness,
            ConfigError::Color(e) => ConfigErrorView::Color(e.text@),
        }
    }
}

/// The color to drive: the configured color at the configured brightness. A brightness above
/// 100 is refused before the color is looked at.
pub open spec fn resolve(cfg: ConfigView) -> Result<Color, ConfigErrorView> {
    if cfg.brightness > MAX_BRIGHTNESS {
        Err(ConfigErrorView::Brightness)
    } else {
        match crate::color::parse_color(cfg.color) {
            Some(c) => Ok(crate::color::scale_color(c, cfg.brightness)),
            None => Err(ConfigErrorView::Color(crate::color::strip_hash(cfg.color))),
        }
    }
}

pub open spec fn default_config() -> ConfigView {
    ConfigView { color: "ff9a33"@, brightness: DEFAULT_BRIGHTNESS }
}

/// The brightness of a configuration that gives none.
pub fn default_brightness() -> (b: u8)
    ensures
        b == DEFAULT_BRIGHTNESS,
        b == 100,
{
    DEFAULT_BRIGHTNESS
}

impl Default for Config {
    fn default() -> (c: Self)
        ensures
            c@ == default_config(),
            c.color@ == "ff9a33"@,
            c.brightness == 100,
    {
        Config { color: "ff9a33".to_owned(), brightness: DEFAULT_BRIGHTNESS }
    }
}

impl Config {
    /// The color to drive.
    pub fn resolved(&self) -> (r: Result<Color, ConfigError>)
        ensures
            match r {
                Ok(c) => resolve(self@) == Ok::<Color, ConfigErrorView>(c),
                Err(e) => resolve(self@) == Err::<Color, ConfigErrorView>(e@),
            },
            (r matches Err(e) && e is Brightness) <==> self.brightness > 100,
            r is Ok <==> self.brightness <= 100 && crate::color::parse_color(self.color@) is Some,
            r matches Ok(c) ==> {
                let whole = crate::color::parse_color(self.color@)->0;
                &&& 100 * c.r <= whole.r * self.brightness < 100 * (c.r + 1)
                &&& 100 * c.g <= whole.g * self.brightness < 100 * (c.g + 1)
                &&& 100 * c.b <= whole.b * self.brightness < 100 * (c.b + 1)
            },
            r matches Err(ConfigError::Color(e)) ==> e.text@ == (if self.color@.len() > 0
                && self.color@[0] == '#' {
                self.color@.subrange(1, self.color@.len() as int)
            } else {
                self.color@
            }),
    {
        proof {
            law_resolved_is_the_share_of_the_color(self@);
        }
        if self.brightness > MAX_BRIGHTNESS {
            return Err(ConfigError::Brightness);
        }
        match Color::from_hex(self.color.as_str()) {
            Ok(c) => Ok(c.scaled(self.brightness)),
            Err(e) => Err(ConfigError::Color(e)),
        }
    }
}

pub open spec fn config_error_message(e: ConfigErrorView) -> Seq<char> {
    match e {
        ConfigErrorView::Brightness => "brightness must be 0-100"@,
        ConfigErrorView::Color(text) => crate::color::color_error_message(text),
    }
}

impl ConfigError {
    /// The error in words.
    pub fn message(&self) -> (m: String)
        ensures
            m@ == config_error_message(self@),
            self is Brightness ==> m@ == "brightness must be 0-100"@,
            self matches ConfigError::Color(e) ==> m@ == "invalid hex color "@
                + crate::text::debug_quoted(e.text@) + ": expected 1-6 hex digits"@,
    {
        match self {
            ConfigError::Brightness => "brightness must be 0-100".to_owned(),
            ConfigError::Color(e) => e.message(),
        }
    }
}

/// The configuration in force, given what came of reading its file: without a file the default,
/// otherwise what the file holds, or the error that reading or parsing it gave.
pub fn load_config<E>(file: Option<Result<Config, E>>) -> (r: Result<Config, E>)
    ensures
        match file {
            None => r matches Ok(c) && c@ == default_config(),
            Some(found) => r == found,
        },
        file is None ==> r is Ok && r->Ok_0.color@ == "ff9a33"@ && r->Ok_0.brightness == 100,
{
    match file {
        None => Ok(Config::default()),
        Some(found) => found,
    }
}

/// The configuration to save for a color and a brightness, if they resolve to a color. The color
/// is held without its `#`.
pub fn cmd_set(color: &str, brightness: u8) -> (r: Result<Config, ConfigError>)
    ensures
        ({
            let asked = ConfigView { color: color@, brightness };
            match r {
                Ok(c) => {
                    &&& resolve(asked) is Ok
                    &&& c@ == (ConfigView {
                        color: crate::color::strip_hash(color@),
                        brightness,
                    })
                },
                Err(e) => resolve(asked) == Err::<Color, ConfigErrorView>(e@),
            }
        }),
        r is Ok <==> brightness <= 100 && crate::color::parse_color(color@) is Some,
        (r matches Err(e) && e is Brightness) <==> brightness > 100,
        r matches Ok(c) ==> c.brightness == brightness && c.color@ == (if color@[0] == '#' {
            color@.subrange(1, color@.len() as int)
        } else {
            color@
        }),
        r matches Err(ConfigError::Color(e)) ==> e.text@ == (if color@.len() > 0 && color@[0]
            == '#' {
            color@.subrange(1, color@.len() as int)
        } else {
            color@
        }),
{
    let asked = Config { color: color.to_owned(), brightness };
    match asked.resolved() {
        Ok(_) => Ok(Config { color: without_hash(color).to_owned(), brightness }),
        Err(e) => Err(e),
    }
}

/// How a configuration is saved: its directory is made, then its file is written, which is given
/// by its path and its text. Where there is none, the directory is made all the same.
pub open spec fn save_plan(dir: Seq<u8>, file: Option<(Seq<u8>, Seq<char>)>) -> Seq<TaskView> {
    match file {
        Some((path, contents)) => seq![
            TaskView::CreateDir { path: dir },
            TaskView::WriteFile { path, contents },
        ],
        None => seq![TaskView::CreateDir { path: dir }],
    }
}

/// Why a configuration is not saved though its directory is made.
#[derive(Debug)]
pub enum SaveError<E> {
    /// The path of the file is not known.
    Path(PathError),
    /// There is no text to write.
    Text(E),
}

/// The tasks of saving, and what is left to report once they are done.
pub type Saving<E> = (Vec<Task>, Result<(), SaveError<E>>);

/// Saving a configuration whose text is `text`, when `dir_base` was the directory for
/// configuration files as the directory was looked up, and `file_base` as the file was. The
/// directory is made before anything else about the file matters; a file whose path is not known
/// comes before a text that is not there.
pub open spec fn saves<E>(
    r: Result<Saving<E>, PathError>,
    dir_base: Option<Seq<u8>>,
    file_base: Option<Seq<u8>>,
    text: Result<String, E>,
) -> bool {
    match dir_base {
        None => r == Err::<Saving<E>, PathError>(PathError::NoConfigDir),
        Some(d) => {
            let dir = crate::paths::config_dir_path(d);
            &&& r matches Ok((tasks, rest))
            &&& match (file_base, text) {
                (None, _) => {
                    &&& crate::tasks::plan(tasks@) == save_plan(dir, None)
                    &&& rest == Err::<(), SaveError<E>>(SaveError::Path(PathError::NoConfigDir))
                },
                (Some(_), Err(e)) => {
                    &&& crate::tasks::plan(tasks@) == save_plan(dir, None)
                    &&& rest == Err::<(), SaveError<E>>(SaveError::Text(e))
                },
                (Some(f), Ok(t)) => {
                    let path = crate::paths::config_file_path(f);
                    &&& crate::tasks::plan(tasks@) == save_plan(dir, Some((path, t@)))
                    &&& rest is Ok
                },
            }
        },
    }
}

/// The tasks that save the configuration whose text is `text`, when the directory for
/// configuration files is `dir_base` for the directory and `file_base` for the file.
pub fn save_config_in<E>(
    dir_base: Option<Vec<u8>>,
    file_base: Option<Vec<u8>>,
    text: Result<String, E>,
) -> (r: Result<Saving<E>, PathError>)
    ensures
        saves(r, crate::paths::bytes_of(dir_base), crate::paths::bytes_of(file_base), text),
        r is Ok <==> dir_base is Some,
        dir_base is None ==> r == Err::<Saving<E>, PathError>(PathError::NoConfigDir),
        r matches Ok((tasks, rest)) ==> {
            &&& tasks@.len() == (if file_base is Some && text is Ok {
                2int
            } else {
                1
            })
            &&& tasks@[0] matches Task::CreateDir { path } && path@
                == crate::paths::config_dir_path(dir_base->0@)
            &&& file_base is Some && text is Ok ==> (tasks@[1] matches Task::WriteFile {
                path,
                contents,
            } && path@ == crate::paths::config_file_path(file_base->0@) && contents@
                == text->Ok_0@)
            &&& rest is Ok <==> file_base is Some && text is Ok
            &&& file_base is None ==> rest == Err::<(), SaveError<E>>(
                SaveError::Path(PathError::NoConfigDir),
            )
            &&& file_base is Some && text is Err ==> rest == Err::<(), SaveError<E>>(
                SaveError::Text(text->Err_0),
            )
        },
{
    let dir = match config_dir_in(dir_base) {
        Ok(dir) => dir,
        Err(e) => {
            return Err(e);
        },
    };
    let ghost dir_bytes = dir@;
    let mut tasks = vec![Task::CreateDir { path: dir }];
    assert(crate::tasks::plan(tasks@) =~= save_plan(dir_bytes, None));
    match config_path_in(file_base) {
        Err(e) => Ok((tasks, Err(SaveError::Path(e)))),
        Ok(path) => match text {
            Err(e) => Ok((tasks, Err(SaveError::Text(e)))),
            Ok(contents) => {
                let ghost file = (path@, contents@);
                tasks.push(Task::WriteFile { path, contents });
                assert(crate::tasks::plan(tasks@) =~= save_plan(dir_bytes, Some(file)));
                Ok((tasks, Ok(())))
            },
        },
    }
}

/// The tasks that save the configuration whose text is `text`.
pub fn save_config<E>(text: Result<String, E>) -> (r: Result<Saving<E>, PathError>)
    ensures
        exists|dir_base: Option<Seq<u8>>, file_base: Option<Seq<u8>>|
            {
                &&& crate::paths::is_named(dir_base)
                &&& crate::paths::is_named(file_base)
                &&& #[trigger] saves(r, dir_base, file_base, text)
            },
{
    save_config_in(user_config_dir(), user_config_dir(), text)
}

pub open spec fn saved_line(path: Seq<char>, cfg: ConfigView) -> Seq<char> {
    "wrote "@ + path + " (color="@ + cfg.color + ", brightness="@
        + crate::text::decimal(cfg.brightness as nat) + ")"@
}

/// The line that reports a configuration saved to `path`.
pub fn saved_report(path: &str, cfg: &Config) -> (line: String)
    ensures
        line@ == saved_line(path@, cfg@),
        line@ == "wrote "@ + path@ + " (color="@ + cfg.color@ + ", brightness="@
            + crate::text::decimal(cfg.brightness as nat) + ")"@,
{
    let mut line = "wrote ".to_owned();
    line.append(path);
    line.append(" (color=");
    line.append(cfg.color.as_str());
    line.append(", brightness=");
    push_decimal(&mut line, cfg.brightness as u64);
    line.append(")");
    line
}

pub open spec fn shown_config(
    path: Seq<char>,
    contents: Option<Seq<char>>,
    default_text: Seq<char>,
) -> Seq<char> {
    match contents {
        Some(text) => path + ":\n"@ + text + "\n"@,
        None => "no config at "@ + path + " (using defaults)\n"@
            + default_text + "\n"@,
    }
}

/// What is printed of the configuration file at `path`: its contents, or, where there is no file,
/// the default configuration, whose text is `default_text`.
pub fn cmd_show(path: &str, contents: Option<&str>, default_text: &str) -> (out: String)
    ensures
        out@ == shown_config(
            path@,
            match contents {
                Some(text) => Some(text@),
                None => None,
            },
            default_text@,
        ),
        contents matches Some(text) ==> out@ == path@ + ":\n"@ + text@ + "\n"@,
        contents is None ==> out@ == "no config at "@ + path@ + " (using defaults)\n"@
            + default_text@ + "\n"@,
{
    match contents {
        Some(text) => {
            let mut out = path.to_owned();
            out.append(":\n");
            out.append(text);
            out.append("\n");
            out
        },
        None => {
            let mut out = "no config at ".to_owned();
            out.append(path);
            out.append(" (using defaults)\n");
            out.append(default_text);
            out.append("\n");
            out
        },
    }
}

/// The default configuration resolves.
pub proof fn law_default_config_resolves()
    ensures
        resolve(default_config()) == Ok::<Color, ConfigErrorView>(
            Color { r: 0xff, g: 0x9a, b: 0x33 },
        ),
{
    reveal_strlit("ff9a33");
    reveal_with_fuel(crate::color::hex_value, 7);
    let s = "ff9a33"@;
    assert(s.drop_last().drop_last().drop_last().drop_last().drop_last().drop_last().len() == 0);
    crate::color::law_full_brightness_keeps_color(Color { r: 0xff, g: 0x9a, b: 0x33 });
}

/// A configuration that resolves does so to the same color without the `#`: what is saved shows
/// what was asked for.
pub proof fn law_saved_color_resolves_alike(color: Seq<char>, brightness: u8)
    requires
        resolve(ConfigView { color, brightness }) is Ok,
    ensures
        resolve(ConfigView { color: crate::color::strip_hash(color), brightness }) == resolve(
            ConfigView { color, brightness },
        ),
        !crate::color::strip_hash(color).contains('#'),
{
    let digits = crate::color::strip_hash(color);
    assert(crate::color::is_hex_digit(digits[0]));
    assert(crate::color::strip_hash(digits) == digits);
    if digits.contains('#') {
        let i = choose|i: int| 0 <= i < digits.len() && digits[i] == '#';
        assert(crate::color::is_hex_digit(digits[i]));
    }
}

/// A color resolves only at a brightness of at most 100, and then no channel is brighter than
/// the configured color.
pub proof fn law_resolved_is_no_brighter(cfg: ConfigView)
    requires
        resolve(cfg) is Ok,
    ensures
        cfg.brightness <= MAX_BRIGHTNESS,
        crate::color::parse_color(cfg.color) matches Some(c) && resolve(cfg)->Ok_0.r <= c.r
            && resolve(cfg)->Ok_0.g <= c.g && resolve(cfg)->Ok_0.b <= c.b,
{
    crate::color::law_scaling_is_monotone(
        crate::color::parse_color(cfg.color)->0,
        cfg.brightness,
        cfg.brightness,
    );
}

/// A configuration resolves if and only if its brightness is at most 100 and its color is one, and
/// then each channel is the floor of its share in percent of the color. A brightness above 100 is
/// the error whatever the color is; otherwise the error holds the color without its `#`.
pub proof fn law_resolved_is_the_share_of_the_color(cfg: ConfigView)
    ensures
        resolve(cfg) is Ok <==> cfg.brightness <= 100 && crate::color::parse_color(cfg.color) is Some,
        resolve(cfg) == Err::<Color, ConfigErrorView>(ConfigErrorView::Brightness)
            <==> cfg.brightness > 100,
        resolve(cfg) matches Ok(c) ==> {
            let whole = crate::color::parse_color(cfg.color)->0;
            &&& 100 * c.r <= whole.r * cfg.brightness < 100 * (c.r + 1)
            &&& 100 * c.g <= whole.g * cfg.brightness < 100 * (c.g + 1)
            &&& 100 * c.b <= whole.b * cfg.brightness < 100 * (c.b + 1)
        },
        resolve(cfg) matches Err(ConfigErrorView::Color(text)) ==> text == (if cfg.color.len() > 0
            && cfg.color[0] == '#' {
            cfg.color.subrange(1, cfg.color.len() as int)
        } else {
            cfg.color
        }),
{
    if cfg.brightness <= 100 {
        match crate::color::parse_color(cfg.color) {
            Some(c) => crate::color::law_scaling_is_the_floor(c, cfg.brightness),
            None => {
                if cfg.color.len() > 0 {
                    assert(cfg.color.skip(1) =~= cfg.color.subrange(1, cfg.color.len() as int));
                }
            },
        }
    }
}

/// What the views of a configuration and of its error hold is all that these hold.
pub proof fn law_config_views_keep_everything(cfg: Config, e: ConfigError)
    ensures
        cfg@.color == cfg.color@,
        cfg@.brightness == cfg.brightness,
        e is Brightness <==> e@ is Brightness,
        e matches ConfigError::Color(c) ==> e@ == ConfigErrorView::Color(c.text@),
{
}

/// The messages of the errors, word by word.
pub proof fn law_config_error_words(text: Seq<char>)
    ensures
        config_error_message(ConfigErrorView::Brightness) == "brightness must be 0-100"@,
        config_error_message(ConfigErrorView::Color(text)) == "invalid hex color "@
            + crate::text::debug_quoted(text) + ": expected 1-6 hex digits"@,
{
}

/// Saving makes the directory first and writes the file last, with the text that it is given.
pub proof fn law_saving_writes_last(dir: Seq<u8>, path: Seq<u8>, contents: Seq<char>)
    ensures
        save_plan(dir, None).len() == 1,
        save_plan(dir, None)[0] == (TaskView::CreateDir { path: dir }),
        save_plan(dir, Some((path, contents))).len() == 2,
        save_plan(dir, Some((path, contents)))[0] == (TaskView::CreateDir { path: dir }),
        save_plan(dir, Some((path, contents)))[1] == (TaskView::WriteFile { path, contents }),
{
}

/// Saving with or without a directory for the directory and for the file, and with or without a
/// text: what is done, and what is left to report.
pub proof fn law_saving<E>(
    r: Result<Saving<E>, PathError>,
    dir_base: Option<Seq<u8>>,
    file_base: Option<Seq<u8>>,
    text: Result<String, E>,
)
    requires
        saves(r, dir_base, file_base, text),
    ensures
        r is Ok <==> dir_base is Some,
        dir_base is None ==> r == Err::<Saving<E>, PathError>(PathError::NoConfigDir),
        r matches Ok((tasks, rest)) ==> {
            &&& tasks@.len() == (if file_base is Some && text is Ok {
                2int
            } else {
                1
            })
            &&& tasks@[0]@ == (TaskView::CreateDir {
                path: crate::paths::config_dir_path(dir_base->0),
            })
            &&& file_base is Some && text is Ok ==> tasks@[1]@ == (TaskView::WriteFile {
                path: crate::paths::config_file_path(file_base->0),
                contents: text->Ok_0@,
            })
            &&& rest is Ok <==> file_base is Some && text is Ok
            &&& file_base is None ==> rest == Err::<(), SaveError<E>>(
                SaveError::Path(PathError::NoConfigDir),
            )
            &&& file_base is Some && text is Err ==> rest == Err::<(), SaveError<E>>(
                SaveError::Text(text->Err_0),
            )
        },
{
    if let Ok((tasks, _)) = r {
        let plan = crate::tasks::plan(tasks@);
        assert(plan.len() == tasks@.len());
        assert(plan[0] == tasks@[0]@);
        if plan.len() == 2 {
            assert(plan[1] == tasks@[1]@);
        }
    }
}

} // verus!
