//! The profile store's text-level work: rewriting the main configuration
//! file's active-profile selector, rewriting or synthesizing a theme's
//! profile file, and resolving where those files live under the user's home
//! directory.

use vstd::prelude::*;

use crate::patch::patch_content;
use crate::patch::replace_key_line;
use crate::theme::display_name_spec;
use crate::theme::profile_file_spec;
use crate::theme::ThemeType;

verus! {

/// The main configuration file's text after an apply: the line selecting
/// the default profile now names the theme's profile file.
pub open spec fn konsolerc_patched(s: Seq<char>, t: ThemeType) -> Seq<char> {
    patch_content(s, "DefaultProfile="@, profile_file_spec(t))
}

/// Rewrites the main configuration file's text so that its
/// `DefaultProfile=` line names the given theme's profile file; every other
/// line is kept unchanged.
pub fn set_konsolerc_content(content: &str, typ: ThemeType) -> (r: String)
    ensures
        r@ == konsolerc_patched(content@, typ),
{
    replace_key_line(content, "DefaultProfile=", typ.profile_file_name())
}

/// The body a profile file is created with when none exists yet, before the
/// `Name=` and `ColorScheme=` lines are patched in.
pub open spec fn default_profile_body_spec(t: ThemeType) -> Seq<char> {
    "[Appearance]\nColorScheme=Breeze\n\n[General]\nCommand=/bin/bash\nName="@
        + display_name_spec(t) + "\nParent=FALLBACK/\n"@
}

/// Builds the default profile body embedding the theme's display name.
pub fn default_profile_body(typ: ThemeType) -> (r: String)
    ensures
        r@ == default_profile_body_spec(typ),
{
    let head = String::from_str("[Appearance]\nColorScheme=Breeze\n\n[General]\nCommand=/bin/bash\nName=");
    head.concat(typ.display_name()).concat("\nParent=FALLBACK/\n")
}

/// A profile file's text after an apply: the loaded text, or the default
/// body if the file did not exist, with the `Name=` line normalized to the
/// theme's display name and the `ColorScheme=` line set to the chosen
/// scheme.
pub open spec fn profile_patched(existing: Option<Seq<char>>, t: ThemeType, scheme: Seq<char>) -> Seq<char> {
    let base = match existing {
        Some(s) => s,
        None => default_profile_body_spec(t),
    };
    patch_content(patch_content(base, "Name="@, display_name_spec(t)), "ColorScheme="@, scheme)
}

/// The view of an optional borrowed text.
pub open spec fn opt_text_view(o: Option<&str>) -> Option<Seq<char>> {
    match o {
        Some(s) => Some(s@),
        None => None,
    }
}

/// Produces the full new text of a theme's profile file: from the existing
/// text when the file exists, otherwise from the built-in default body; in
/// either case the `Name=` line is set to the theme's display name and the
/// `ColorScheme=` line to the requested scheme, with all other lines kept.
pub fn create_profile_content(existing: Option<&str>, typ: ThemeType, colorscheme: &str) -> (r: String)
    ensures
        r@ == profile_patched(opt_text_view(existing), typ, colorscheme@),
{
    let named = match existing {
        Some(s) => replace_key_line(s, "Name=", typ.display_name()),
        None => {
            let body = default_profile_body(typ);
            replace_key_line(body.as_str(), "Name=", typ.display_name())
        },
    };
    replace_key_line(named.as_str(), "ColorScheme=", colorscheme)
}

/// The main configuration file's path relative to the home directory.
pub fn konsolerc_rel_path() -> (r: &'static str)
    ensures
        r@ == ".config/konsolerc"@,
{
    ".config/konsolerc"
}

/// A theme's profile file path relative to the home directory.
pub open spec fn profile_rel_spec(t: ThemeType) -> Seq<char> {
    match t {
        ThemeType::Dark => ".local/share/konsole/Dark.profile"@,
        ThemeType::Light => ".local/share/konsole/Light.profile"@,
    }
}

/// A theme's profile file path relative to the home directory.
pub fn profile_rel_path(typ: ThemeType) -> (r: &'static str)
    ensures
        r@ == profile_rel_spec(typ),
{
    match typ {
        ThemeType::Dark => ".local/share/konsole/Dark.profile",
        ThemeType::Light => ".local/share/konsole/Light.profile",
    }
}

/// The directory holding the installed color schemes, relative to the home
/// directory.
pub fn schemes_dir_rel_path() -> (r: &'static str)
    ensures
        r@ == ".local/share/konsole"@,
{
    ".local/share/konsole"
}

/// The user preference file's path relative to the home directory.
pub fn config_rel_path() -> (r: &'static str)
    ensures
        r@ == ".config/auto-konsole/config.toml"@,
{
    ".config/auto-konsole/config.toml"
}

/// Relies on home::home_dir: the current user's home directory, read from
/// the process environment. The result depends on the environment alone, so
/// nothing is promised of it; a home directory that is missing or not valid
/// text yields None.
#[verifier::external_body]
fn home_dir_string() -> (r: Option<String>) {
    home::home_dir().and_then(|p| p.to_str().map(|s| s.to_string()))
}

/// An absolute path under the home directory: whatever the home directory
/// turned out to be, the result ends with a separator followed by the given
/// relative path. None only when no home directory could be determined.
pub fn home_joined(rel: &str) -> (r: Option<String>)
    ensures
        r matches Some(p) ==> ("/"@ + rel@).is_suffix_of(p@),
{
    match home_dir_string() {
        Some(h) => {
            let p = h.concat("/").concat(rel);
            proof {
                assert(p@.subrange(p@.len() - ("/"@ + rel@).len(), p@.len() as int) =~= "/"@
                    + rel@);
            }
            Some(p)
        },
        None => None,
    }
}

} // verus!
