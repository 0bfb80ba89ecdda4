//! Where the saved state and the presets live: `~/.config/evo-control/`.
//!
//! Paths are held as text and joined as `PathBuf::join` joins them on Unix.

use vstd::prelude::*;

verus! {

/// `base` joined with `p` as `PathBuf::join` does on Unix: an absolute `p`
/// replaces `base`; otherwise a separator is put between them unless `base`
/// is empty or already ends with one.
pub open spec fn spec_path_join(base: Seq<char>, p: Seq<char>) -> Seq<char> {
    if p.len() > 0 && p[0] == '/' {
        p
    } else if base.len() > 0 && base.last() != '/' {
        base + "/"@ + p
    } else {
        base + p
    }
}

/// Join a path and a relative or absolute component.
pub fn path_join(base: &str, p: &str) -> (r: String)
    ensures
        r@ == spec_path_join(base@, p@),
{
    proof { reveal_strlit("/"); }
    if p.unicode_len() > 0 && p.get_char(0) == '/' {
        return String::from_str(p);
    }
    let n = base.unicode_len();
    let mut r = String::from_str(base);
    if n > 0 && base.get_char(n - 1) != '/' {
        r.append("/");
    }
    r.append(p);
    r
}

/// `dirs::config_dir`: the user's configuration directory, written as
/// text (lossily for a path that is not UTF-8). Its result depends on the
/// environment (XDG_CONFIG_HOME, HOME, the password database), so nothing is
/// stated of it.
#[verifier::external_body]
fn user_config_dir() -> (r: Option<String>) {
    dirs::config_dir().map(|p| p.to_string_lossy().into_owned())
}

/// The configuration directory of this program under the user's
/// configuration directory `base` (the current directory when there is none).
pub open spec fn spec_config_dir(base: Option<Seq<char>>) -> Seq<char> {
    spec_path_join(
        match base {
            Some(b) => b,
            None => "."@,
        },
        "evo-control"@,
    )
}

/// The configuration directory under a given user configuration directory.
pub fn config_dir_in(base: Option<String>) -> (r: String)
    ensures
        r@ == spec_config_dir(
            match base {
                Some(b) => Some(b@),
                None => None,
            },
        ),
{
    match base {
        Some(b) => path_join(b.as_str(), "evo-control"),
        None => path_join(".", "evo-control"),
    }
}

/// Root config directory: `~/.config/evo-control/`.
pub fn config_dir() -> (r: String)
    ensures
        exists|base: Option<Seq<char>>| r@ == spec_config_dir(base),
{
    let base = user_config_dir();
    let ghost b = match &base {
        Some(b) => Some(b@),
        None => None,
    };
    let r = config_dir_in(base);
    assert(r@ == spec_config_dir(b));
    r
}

/// The state file in a configuration directory.
pub open spec fn spec_state_file(dir: Seq<char>) -> Seq<char> {
    spec_path_join(dir, "state.toml"@)
}

/// The presets directory in a configuration directory.
pub open spec fn spec_presets_dir(dir: Seq<char>) -> Seq<char> {
    spec_path_join(dir, "presets"@)
}

/// The file of preset `name` in a configuration directory.
pub open spec fn spec_preset_file(dir: Seq<char>, name: Seq<char>) -> Seq<char> {
    spec_path_join(spec_presets_dir(dir), name + ".toml"@)
}

/// State file: `~/.config/evo-control/state.toml`.
pub fn state_file() -> (r: String)
    ensures
        exists|base: Option<Seq<char>>| r@ == spec_state_file(spec_config_dir(base)),
{
    let dir = config_dir();
    path_join(dir.as_str(), "state.toml")
}

/// Presets directory: `~/.config/evo-control/presets/`.
pub fn presets_dir() -> (r: String)
    ensures
        exists|base: Option<Seq<char>>| r@ == spec_presets_dir(spec_config_dir(base)),
{
    let dir = config_dir();
    path_join(dir.as_str(), "presets")
}

/// Path for a named preset: `~/.config/evo-control/presets/{name}.toml`.
pub fn preset_file(name: &str) -> (r: String)
    ensures
        exists|base: Option<Seq<char>>| r@ == spec_preset_file(spec_config_dir(base), name@),
{
    let dir = config_dir();
    let presets = path_join(dir.as_str(), "presets");
    let mut file = String::from_str(name);
    file.append(".toml");
    path_join(presets.as_str(), file.as_str())
}

} // verus!
