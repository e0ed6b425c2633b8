//! Where the files are. A path is the bytes of a Unix path, which need not be UTF-8.

use vstd::prelude::*;
use vstd::utf8::{decode_utf8, encode_utf8, valid_utf8};

verus! {

/// Why a path is not known.
#[derive(Debug, Clone, Copy, PartialEq, Eq, Structural)]
pub enum PathError {
    NoConfigDir,
    NoHomeDir,
}

/// The path `name` below `base`: a slash stands between them, unless `base` brings its own or is
/// empty.
pub open spec fn joined(base: Seq<u8>, name: Seq<char>) -> Seq<u8> {
    if base.len() > 0 && base.last() != 0x2f {
        base.push(0x2f) + encode_utf8(name)
    } else {
        base + encode_utf8(name)
    }
}

/// The path `name`, which is relative, below `base`.
pub(crate) fn join(base: &[u8], name: &str) -> (path: Vec<u8>)
    ensures
        path@ == joined(base@, name@),
        path@ == (if base@.len() == 0 || base@[base@.len() - 1] == 47 {
            base@ + encode_utf8(name@)
        } else {
            base@ + seq![47u8] + encode_utf8(name@)
        }),
{
    let mut path: Vec<u8> = Vec::new();
    path.extend_from_slice(base);
    assert(path@ =~= base@);
    if base.len() > 0 && base[base.len() - 1] != 0x2f {
        path.push(0x2f);
    }
    path.extend_from_slice(name.as_bytes());
    assert(path@ =~= joined(base@, name@));
    proof {
        law_one_slash_joins(base@, name@);
    }
    path
}

/// The text that bytes stand for when every malformed UTF-8 sequence among them is replaced.
pub uninterp spec fn lossy_text(bytes: Seq<u8>) -> Seq<char>;

/// Shows a path, by `String::from_utf8_lossy`.
///
/// Bytes that are UTF-8 are shown as they are. Of others it is said only that the text is a
/// function of the bytes.
#[verifier::external_body]
fn display(path: &[u8]) -> (s: String)
    ensures
        s@ == lossy_text(path@),
        valid_utf8(path@) ==> s@ == decode_utf8(path@),
{
    String::from_utf8_lossy(path).into_owned()
}

/// The text that a path is shown with: its own, where it is UTF-8.
pub open spec fn shown_text(path: Seq<u8>) -> Seq<char> {
    if valid_utf8(path) {
        decode_utf8(path)
    } else {
        lossy_text(path)
    }
}

/// The text that a path is shown with.
pub fn path_text(path: &[u8]) -> (s: String)
    ensures
        s@ == shown_text(path@),
        valid_utf8(path@) ==> s@ == decode_utf8(path@),
        !valid_utf8(path@) ==> s@ == lossy_text(path@),
{
    display(path)
}

/// The directory for configuration files, by `dirs::config_dir`, as the bytes of its path.
///
/// It depends on the environment. On Linux it is `$XDG_CONFIG_HOME` where that is absolute; there
/// otherwise, and on macOS always, it is a directory below the home directory. So it is never
/// empty.
#[verifier::external_body]
pub(crate) fn user_config_dir() -> (dir: Option<Vec<u8>>)
    ensures
        dir matches Some(path) ==> path@.len() > 0,
{
    match dirs::config_dir() {
        Some(path) => Some(path.into_os_string().into_encoded_bytes()),
        None => None,
    }
}

/// The home directory, by `dirs::home_dir`, as the bytes of its path.
///
/// It depends on the environment. On Linux and macOS an empty one is passed over.
#[verifier::external_body]
pub(crate) fn user_home_dir() -> (dir: Option<Vec<u8>>)
    ensures
        dir matches Some(path) ==> path@.len() > 0,
{
    match dirs::home_dir() {
        Some(path) => Some(path.into_os_string().into_encoded_bytes()),
        None => None,
    }
}

/// The bytes of a path, if there is one.
pub open spec fn bytes_of(path: Option<Vec<u8>>) -> Option<Seq<u8>> {
    match path {
        Some(p) => Some(p@),
        None => None,
    }
}

/// The path is not empty, if there is one.
pub open spec fn is_named(path: Option<Seq<u8>>) -> bool {
    path matches Some(p) ==> p.len() > 0
}

/// The directory of this program below the directory for configuration files.
pub open spec fn config_dir_path(base: Seq<u8>) -> Seq<u8> {
    joined(base, "quadcastctl"@)
}

pub open spec fn config_file_path(base: Seq<u8>) -> Seq<u8> {
    joined(config_dir_path(base), "config.toml"@)
}

/// The directory of the configuration file, when `base` is the directory for configuration files.
pub fn config_dir_in(base: Option<Vec<u8>>) -> (r: Result<Vec<u8>, PathError>)
    ensures
        match base {
            Some(b) => r matches Ok(path) && path@ == config_dir_path(b@),
            None => r == Err::<Vec<u8>, PathError>(PathError::NoConfigDir),
        },
{
    match base {
        Some(b) => Ok(join(b.as_slice(), "quadcastctl")),
        None => Err(PathError::NoConfigDir),
    }
}

/// The configuration file, when `base` is the directory for configuration files.
pub fn config_path_in(base: Option<Vec<u8>>) -> (r: Result<Vec<u8>, PathError>)
    ensures
        match base {
            Some(b) => r matches Ok(path) && path@ == config_file_path(b@),
            None => r == Err::<Vec<u8>, PathError>(PathError::NoConfigDir),
        },
{
    match config_dir_in(base) {
        Ok(dir) => Ok(join(dir.as_slice(), "config.toml")),
        Err(e) => Err(e),
    }
}

/// The directory of the configuration file.
pub fn config_dir() -> (r: Result<Vec<u8>, PathError>)
    ensures
        match r {
            Ok(path) => exists|base: Seq<u8>|
                base.len() > 0 && path@ == #[trigger] config_dir_path(base),
            Err(e) => e == PathError::NoConfigDir,
        },
{
    config_dir_in(user_config_dir())
}

/// The configuration file.
pub fn config_path() -> (r: Result<Vec<u8>, PathError>)
    ensures
        match r {
            Ok(path) => exists|base: Seq<u8>|
                base.len() > 0 && path@ == #[trigger] config_file_path(base),
            Err(e) => e == PathError::NoConfigDir,
        },
{
    config_path_in(user_config_dir())
}

pub open spec fn path_error_message(e: PathError) -> Seq<char> {
    match e {
        PathError::NoConfigDir => "no config dir on this platform"@,
        PathError::NoHomeDir => "no home dir"@,
    }
}

impl PathError {
    /// The error in words.
    pub fn message(&self) -> (m: String)
        ensures
            m@ == path_error_message(*self),
            self is NoConfigDir ==> m@ == "no config dir on this platform"@,
            self is NoHomeDir ==> m@ == "no home dir"@,
    {
        match self {
            PathError::NoConfigDir => "no config dir on this platform".to_owned(),
            PathError::NoHomeDir => "no home dir".to_owned(),
        }
    }
}

/// A path that is made of text is shown as that text.
pub proof fn law_text_is_shown_as_it_is(text: Seq<char>)
    ensures
        shown_text(encode_utf8(text)) == text,
{
    vstd::utf8::encode_utf8_valid_utf8(text);
    vstd::utf8::encode_utf8_decode_utf8(text);
}

/// A path below another begins with that other, ends with its own name, and has one slash more
/// between them, unless the other is empty or ends with one.
pub proof fn law_one_slash_joins(base: Seq<u8>, name: Seq<char>)
    ensures
        base.len() == 0 ==> joined(base, name) == encode_utf8(name),
        base.len() > 0 && base[base.len() - 1] == 47 ==> joined(base, name) == base + encode_utf8(
            name,
        ),
        base.len() > 0 && base[base.len() - 1] != 47 ==> joined(base, name) == base + seq![47u8]
            + encode_utf8(name),
{
    assert(base.push(0x2f) =~= base + seq![47u8]);
    if base.len() == 0 {
        assert(base + encode_utf8(name) =~= encode_utf8(name));
    }
}

/// The configuration is the file `config.toml` in the directory `quadcastctl`.
pub proof fn law_config_is_in_its_directory(base: Seq<u8>)
    ensures
        config_dir_path(base) == joined(base, "quadcastctl"@),
        config_file_path(base) == joined(joined(base, "quadcastctl"@), "config.toml"@),
{
}

/// A path that is UTF-8 is shown as the text that it is; of the others the malformed parts are
/// replaced.
pub proof fn law_path_is_shown(path: Seq<u8>)
    ensures
        valid_utf8(path) ==> shown_text(path) == decode_utf8(path),
        !valid_utf8(path) ==> shown_text(path) == lossy_text(path),
{
}

/// The bytes of a path are its own, and there are none where there is no path.
pub proof fn law_bytes_are_those_of_the_path(path: Option<Vec<u8>>, bytes: Option<Seq<u8>>)
    ensures
        bytes_of(path) is Some <==> path is Some,
        path matches Some(p) ==> bytes_of(path)->0 == p@,
        is_named(bytes) <==> bytes != Some(Seq::<u8>::empty()),
{
    if let Some(b) = bytes {
        if b.len() == 0 {
            assert(b =~= Seq::<u8>::empty());
        }
    }
}

} // verus!
