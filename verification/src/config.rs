use vstd::prelude::*;

use crate::color::CrabFetchColor;

verus! {

/// Configuration of the process-count module. Every `None` field falls back
/// to the corresponding global default at render time; `format` falls back
/// to the module's own default template.
pub struct ProcessesConfiguration {
    pub title: String,
    pub title_color: Option<CrabFetchColor>,
    pub title_bold: Option<bool>,
    pub title_italic: Option<bool>,
    pub seperator: Option<String>,
    pub format: Option<String>,
}

/// Configuration of the shell module. `format` and `show_default_shell` are
/// always present; the styling fields fall back to the global defaults.
pub struct ShellConfiguration {
    pub title: String,
    pub title_color: Option<CrabFetchColor>,
    pub title_bold: Option<bool>,
    pub title_italic: Option<bool>,
    pub seperator: Option<String>,
    pub format: String,
    pub show_default_shell: bool,
}

/// The process-wide configuration: global styling defaults and one optional
/// override block per module. It is loaded once and only read during
/// rendering; overrides are resolved lazily at every render call, never
/// merged in advance.
pub struct Configuration {
    pub title_color: CrabFetchColor,
    pub title_bold: bool,
    pub title_italic: bool,
    pub seperator: String,
    pub processes: ProcessesConfiguration,
    pub shell: ShellConfiguration,
}

/// The fallback rule for a colour field.
pub open spec fn spec_resolve_color(o: Option<CrabFetchColor>, g: CrabFetchColor) -> CrabFetchColor {
    match o {
        Option::Some(c) => c,
        Option::None => g,
    }
}

/// The fallback rule for a boolean field.
pub open spec fn spec_resolve_bool(o: Option<bool>, g: bool) -> bool {
    match o {
        Option::Some(b) => b,
        Option::None => g,
    }
}

/// The fallback rule for a string field, stated over character sequences.
pub open spec fn spec_resolve_string(o: Option<String>, g: Seq<char>) -> Seq<char> {
    match o {
        Option::Some(s) => s@,
        Option::None => g,
    }
}

/// Resolves a per-module colour override against the global default.
pub fn resolve_color(o: &Option<CrabFetchColor>, g: &CrabFetchColor) -> (r: CrabFetchColor)
    ensures
        r == spec_resolve_color(*o, *g),
{
    match o {
        Option::Some(c) => *c,
        Option::None => *g,
    }
}

/// Resolves a per-module boolean override against the global default.
pub fn resolve_bool(o: &Option<bool>, g: bool) -> (r: bool)
    ensures
        r == spec_resolve_bool(*o, g),
{
    match o {
        Option::Some(b) => *b,
        Option::None => g,
    }
}

/// Resolves a per-module string override against the default.
pub fn resolve_str<'a>(o: &'a Option<String>, g: &'a str) -> (r: &'a str)
    ensures
        r@ == spec_resolve_string(*o, g@),
{
    match o {
        Option::Some(s) => s.as_str(),
        Option::None => g,
    }
}

/// Override resolution: a per-module `Some` override wins outright, and a
/// `None` override falls back to the global default.
pub proof fn lemma_override_resolution(b: bool, g: bool)
    ensures
        spec_resolve_bool(Option::Some(b), g) == b,
        spec_resolve_bool(Option::None, g) == g,
{
}

} // verus!
