//! The formatting engine of a terminal system-information fetcher.
//!
//! Each information source ("module") collects a plain data record and renders
//! it as one styled line: a coloured, padded title, a separator, and a value
//! produced by substituting the record's fields into a user-supplied format
//! template. A module whose collection failed renders the same line with the
//! literal value `Unknown` instead, so a failing source never breaks the
//! alignment or the run.

use vstd::prelude::*;

pub mod color;
pub mod config;
pub mod numbers;
pub mod processes;
pub mod shell;
pub mod style;
pub mod substitute;

verus! {

use crate::color::CrabFetchColor;
use crate::config::Configuration;
use crate::style::{lemma_alignment_invariant, spec_default_style, spec_line_prefix,
    spec_padded_title};
use crate::substitute::{replace_color_tokens, spec_color_pass};

/// Why a collector failed: the module it belongs to and a human-readable
/// reason. The engine never inspects the reason; a failure only selects the
/// `Unknown` rendering of its module.
pub struct ModuleError {
    module_name: String,
    message: String,
}

impl ModuleError {
    /// The name of the module whose collection failed.
    pub closed spec fn spec_module_name(&self) -> Seq<char> {
        self.module_name@
    }

    /// The human-readable reason.
    pub closed spec fn spec_message(&self) -> Seq<char> {
        self.message@
    }

    /// Records a collection failure of the named module.
    pub fn new(module_name: &str, message: String) -> (r: ModuleError)
        ensures
            r.spec_module_name() == module_name@,
            r.spec_message() == message@,
    {
        ModuleError { module_name: module_name.to_owned(), message }
    }

    /// The name of the module whose collection failed.
    pub fn module_name(&self) -> (r: &str)
        ensures
            r@ == self.spec_module_name(),
    {
        self.module_name.as_str()
    }

    /// The human-readable reason.
    pub fn message(&self) -> (r: &str)
        ensures
            r@ == self.spec_message(),
    {
        self.message.as_str()
    }
}

/// The contract every information source implements. Each module resolves
/// its own configuration block against the global defaults (the six `spec`
/// functions say to what), expands its format template over its record's
/// fields, and delegates to the shared styling routine.
///
/// `style` and `unknown_output` given the same configuration and
/// `max_title_size` render identically styled titles of identical width;
/// only the value differs. `unknown_output` takes no record at all, so a
/// failed collection can always fall back to it.
pub trait Module: Sized {
    /// Whether this record is the blank instance `new` returns.
    spec fn is_blank(&self) -> bool;

    /// The title this module renders under the given configuration.
    spec fn resolved_title(config: &Configuration) -> Seq<char>;

    /// The title colour after override resolution.
    spec fn resolved_color(config: &Configuration) -> CrabFetchColor;

    /// The bold flag after override resolution.
    spec fn resolved_bold(config: &Configuration) -> bool;

    /// The italic flag after override resolution.
    spec fn resolved_italic(config: &Configuration) -> bool;

    /// The separator after override resolution.
    spec fn resolved_separator(config: &Configuration) -> Seq<char>;

    /// The value after the text pass: the module's format template with
    /// every recognised token replaced by the record's field.
    spec fn replaced(&self, config: &Configuration) -> Seq<char>;

    /// A blank instance, used only as a receiver before collection has
    /// succeeded and never otherwise inspected.
    fn new() -> (r: Self)
        ensures
            r.is_blank(),
    ;

    /// The text pass over this module's format template.
    fn replace_placeholders(&self, config: &Configuration) -> (r: String)
        ensures
            r@ == self.replaced(config),
    ;

    /// The final printable line for a collected record: resolved styling and
    /// title, then the record's value after both substitution passes.
    fn style(&self, config: &Configuration, max_title_size: u64) -> (r: String)
        ensures
            r@ == spec_default_style(
                Self::resolved_title(config),
                Self::resolved_color(config),
                Self::resolved_bold(config),
                Self::resolved_italic(config),
                Self::resolved_separator(config),
                spec_color_pass(self.replaced(config)),
                max_title_size as nat,
            ),
    ;

    /// The fallback line rendered when collection failed: the same resolved
    /// styling, title and separator as `style`, with the literal value
    /// `Unknown`. It depends on nothing but the configuration and the width.
    fn unknown_output(config: &Configuration, max_title_size: u64) -> (r: String)
        ensures
            r@ == spec_default_style(
                Self::resolved_title(config),
                Self::resolved_color(config),
                Self::resolved_bold(config),
                Self::resolved_italic(config),
                Self::resolved_separator(config),
                "Unknown"@,
                max_title_size as nat,
            ),
    ;

    /// The colour pass, shared by all modules: expands colour tokens in the
    /// already-substituted value and appends one reset sequence.
    fn replace_color_placeholders(&self, value: &str) -> (r: String)
        ensures
            r@ == spec_color_pass(value@),
    {
        replace_color_tokens(value)
    }
}

/// Alignment invariant at the module contract: under one configuration and
/// one width, the line `style` renders and the line `unknown_output` renders
/// share the entire styled-title-and-separator prefix, and the rendered
/// title width does not depend on the value. Only the value part differs.
pub proof fn lemma_module_alignment<M: Module>(m: &M, config: &Configuration, max_title_size: u64)
    ensures
        spec_default_style(
            M::resolved_title(config),
            M::resolved_color(config),
            M::resolved_bold(config),
            M::resolved_italic(config),
            M::resolved_separator(config),
            spec_color_pass(m.replaced(config)),
            max_title_size as nat,
        ) == spec_line_prefix(
            M::resolved_title(config),
            M::resolved_color(config),
            M::resolved_bold(config),
            M::resolved_italic(config),
            M::resolved_separator(config),
            max_title_size as nat,
        ) + spec_color_pass(m.replaced(config)),
        spec_default_style(
            M::resolved_title(config),
            M::resolved_color(config),
            M::resolved_bold(config),
            M::resolved_italic(config),
            M::resolved_separator(config),
            "Unknown"@,
            max_title_size as nat,
        ) == spec_line_prefix(
            M::resolved_title(config),
            M::resolved_color(config),
            M::resolved_bold(config),
            M::resolved_italic(config),
            M::resolved_separator(config),
            max_title_size as nat,
        ) + "Unknown"@,
        spec_padded_title(M::resolved_title(config), max_title_size as nat).len()
            == if M::resolved_title(config).len() >= max_title_size as nat {
            M::resolved_title(config).len()
        } else {
            max_title_size as nat
        },
{
    lemma_alignment_invariant(
        M::resolved_title(config),
        M::resolved_color(config),
        M::resolved_bold(config),
        M::resolved_italic(config),
        M::resolved_separator(config),
        spec_color_pass(m.replaced(config)),
        "Unknown"@,
        max_title_size as nat,
    );
}

} // verus!
