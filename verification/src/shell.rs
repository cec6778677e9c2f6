use vstd::prelude::*;

use crate::color::CrabFetchColor;
use crate::config::{
    resolve_bool, resolve_color, resolve_str, spec_resolve_bool, spec_resolve_color,
    spec_resolve_string, Configuration,
};
use crate::style::default_style;
use crate::substitute::{replace_all, spec_replace};
use crate::Module;

verus! {

/// The record of the shell module: the running (or configured default)
/// shell's bare name and its full path.
pub struct ShellInfo {
    shell_name: String,
    shell_path: String,
}

/// Where the basename of `s` starts: just after the last `/`, or at the
/// start when there is none.
pub open spec fn spec_basename_start(s: Seq<char>) -> int
    decreases s.len(),
{
    if s.len() == 0 {
        0
    } else if s.last() == '/' {
        s.len() as int
    } else {
        spec_basename_start(s.drop_last())
    }
}

/// Everything after the last `/` of `s`; all of `s` when there is none, and
/// empty when `s` ends with a `/`.
pub open spec fn spec_basename(s: Seq<char>) -> Seq<char> {
    s.skip(spec_basename_start(s))
}

/// How many characters of `s` precede its first NUL; all of them when `s`
/// holds none.
pub open spec fn spec_before_nul_len(s: Seq<char>) -> int
    decreases s.len(),
{
    if s.len() == 0 {
        0
    } else if s[0] == '\0' {
        0
    } else {
        1 + spec_before_nul_len(s.skip(1))
    }
}

/// The prefix of `s` that precedes its first NUL.
pub open spec fn spec_before_nul(s: Seq<char>) -> Seq<char> {
    s.take(spec_before_nul_len(s))
}

/// Returns everything after the last `/` of `path`, exactly as
/// `spec_basename` states.
fn basename(path: &str) -> (r: String)
    ensures
        r@ == spec_basename(path@),
{
    let n: usize = path.unicode_len();
    let mut start: usize = 0;
    let mut i: usize = 0;
    proof {
        assert(path@.take(0) =~= Seq::<char>::empty());
    }
    while i < n
        invariant
            start <= i <= n,
            n == path@.len(),
            start as int == spec_basename_start(path@.take(i as int)),
        decreases n - i,
    {
        let c = path.get_char(i);
        proof {
            assert(path@.take(i + 1).drop_last() =~= path@.take(i as int));
            assert(path@.take(i + 1).last() == path@[i as int]);
        }
        if c == '/' {
            start = i + 1;
            proof {
                assert(path@.take(i + 1).len() == i + 1);
            }
        }
        i += 1;
    }
    proof {
        assert(path@.take(n as int) =~= path@);
    }
    path.substring_char(start, n).to_owned()
}

/// Returns the prefix of `raw` that precedes its first NUL, exactly as
/// `spec_before_nul` states.
fn before_nul(raw: &str) -> (r: String)
    ensures
        r@ == spec_before_nul(raw@),
{
    let n: usize = raw.unicode_len();
    let mut i: usize = 0;
    proof {
        assert(raw@.skip(0) =~= raw@);
    }
    while i < n
        invariant
            i <= n,
            n == raw@.len(),
            spec_before_nul_len(raw@) == i + spec_before_nul_len(raw@.skip(i as int)),
            forall|k: int| 0 <= k < i ==> raw@[k] != '\0',
        decreases n - i,
    {
        let c = raw.get_char(i);
        proof {
            assert(raw@.skip(i as int)[0] == raw@[i as int]);
            assert(raw@.skip(i as int).skip(1) =~= raw@.skip(i + 1));
        }
        if c == '\0' {
            proof {
                assert(spec_before_nul_len(raw@.skip(i as int)) == 0);
                assert(raw@.take(spec_before_nul_len(raw@)) =~= raw@.take(i as int));
            }
            return raw.substring_char(0, i).to_owned();
        }
        i += 1;
    }
    proof {
        assert(raw@.skip(n as int) =~= Seq::<char>::empty());
        assert(spec_before_nul_len(raw@) == n);
        assert(raw@.take(n as int) =~= raw@);
    }
    raw.substring_char(0, n).to_owned()
}

impl ShellInfo {
    /// The shell's bare name.
    pub closed spec fn spec_shell_name(&self) -> Seq<char> {
        self.shell_name@
    }

    /// The shell's full path.
    pub closed spec fn spec_shell_path(&self) -> Seq<char> {
        self.shell_path@
    }

    /// The shell's bare name.
    pub fn shell_name(&self) -> (r: &str)
        ensures
            r@ == self.spec_shell_name(),
    {
        self.shell_name.as_str()
    }

    /// The shell's full path.
    pub fn shell_path(&self) -> (r: &str)
        ensures
            r@ == self.spec_shell_path(),
    {
        self.shell_path.as_str()
    }

    /// Builds the record from the raw target of the parent process's
    /// executable link: the path is what precedes the first NUL, and the
    /// name is that path's basename.
    pub fn from_exe_path(raw: &str) -> (r: ShellInfo)
        ensures
            r.spec_shell_path() == spec_before_nul(raw@),
            r.spec_shell_name() == spec_basename(spec_before_nul(raw@)),
    {
        let shell_path = before_nul(raw);
        let shell_name = basename(shell_path.as_str());
        ShellInfo { shell_name, shell_path }
    }

    /// Builds the record from a configured default shell path, taken as it
    /// is: the name is the path's basename.
    pub fn from_default_shell_path(path: &str) -> (r: ShellInfo)
        ensures
            r.spec_shell_path() == path@,
            r.spec_shell_name() == spec_basename(path@),
    {
        let shell_path = path.to_owned();
        let shell_name = basename(path);
        ShellInfo { shell_name, shell_path }
    }
}

impl Module for ShellInfo {
    open spec fn is_blank(&self) -> bool {
        self.spec_shell_name().len() == 0 && self.spec_shell_path().len() == 0
    }

    open spec fn resolved_title(config: &Configuration) -> Seq<char> {
        config.shell.title@
    }

    open spec fn resolved_color(config: &Configuration) -> CrabFetchColor {
        spec_resolve_color(config.shell.title_color, config.title_color)
    }

    open spec fn resolved_bold(config: &Configuration) -> bool {
        spec_resolve_bool(config.shell.title_bold, config.title_bold)
    }

    open spec fn resolved_italic(config: &Configuration) -> bool {
        spec_resolve_bool(config.shell.title_italic, config.title_italic)
    }

    open spec fn resolved_separator(config: &Configuration) -> Seq<char> {
        spec_resolve_string(config.shell.seperator, config.seperator@)
    }

    open spec fn replaced(&self, config: &Configuration) -> Seq<char> {
        spec_replace(
            spec_replace(config.shell.format@, "{shell}"@, self.spec_shell_name()),
            "{path}"@,
            self.spec_shell_path(),
        )
    }

    fn new() -> (r: ShellInfo) {
        ShellInfo { shell_name: String::new(), shell_path: String::new() }
    }

    fn replace_placeholders(&self, config: &Configuration) -> (r: String) {
        let with_shell = replace_all(
            config.shell.format.as_str(),
            "{shell}",
            self.shell_name.as_str(),
        );
        replace_all(with_shell.as_str(), "{path}", self.shell_path.as_str())
    }

    fn style(&self, config: &Configuration, max_title_size: u64) -> (r: String) {
        let title_color = resolve_color(&config.shell.title_color, &config.title_color);
        let title_bold = resolve_bool(&config.shell.title_bold, config.title_bold);
        let title_italic = resolve_bool(&config.shell.title_italic, config.title_italic);
        let seperator = resolve_str(&config.shell.seperator, config.seperator.as_str());
        let text = self.replace_placeholders(config);
        let value = self.replace_color_placeholders(text.as_str());
        default_style(
            max_title_size,
            config.shell.title.as_str(),
            &title_color,
            title_bold,
            title_italic,
            seperator,
            value.as_str(),
        )
    }

    fn unknown_output(config: &Configuration, max_title_size: u64) -> (r: String) {
        let title_color = resolve_color(&config.shell.title_color, &config.title_color);
        let title_bold = resolve_bool(&config.shell.title_bold, config.title_bold);
        let title_italic = resolve_bool(&config.shell.title_italic, config.title_italic);
        let seperator = resolve_str(&config.shell.seperator, config.seperator.as_str());
        default_style(
            max_title_size,
            config.shell.title.as_str(),
            &title_color,
            title_bold,
            title_italic,
            seperator,
            "Unknown",
        )
    }
}

} // verus!
