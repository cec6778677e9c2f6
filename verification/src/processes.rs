use vstd::prelude::*;

use crate::color::CrabFetchColor;
use crate::config::{
    resolve_bool, resolve_color, resolve_str, spec_resolve_bool, spec_resolve_color,
    spec_resolve_string, Configuration,
};
use crate::numbers::{is_numeric_name, spec_decimal, spec_is_numeric_name, u32_to_decimal};
use crate::style::default_style;
use crate::substitute::{replace_all, spec_replace};
use crate::Module;

verus! {

/// The record of the process-count module: how many entries of a process
/// table scan were numeric names.
pub struct ProcessesInfo {
    count: u32,
}

/// How many of the given entry names are numeric.
pub open spec fn spec_numeric_count(names: Seq<Seq<char>>) -> nat
    decreases names.len(),
{
    if names.len() == 0 {
        0
    } else {
        spec_numeric_count(names.drop_last()) + if spec_is_numeric_name(names.last()) {
            1nat
        } else {
            0nat
        }
    }
}

/// The numeric-name count never exceeds the number of entries.
proof fn lemma_numeric_count_le_len(names: Seq<Seq<char>>)
    ensures
        spec_numeric_count(names) <= names.len(),
    decreases names.len(),
{
    if names.len() > 0 {
        lemma_numeric_count_le_len(names.drop_last());
    }
}

impl ProcessesInfo {
    /// The collected process count.
    pub closed spec fn spec_count(&self) -> u32 {
        self.count
    }

    /// The collected process count.
    pub fn count(&self) -> (r: u32)
        ensures
            r == self.spec_count(),
    {
        self.count
    }

    /// Builds the record from the entry names of a process-table scan,
    /// counting exactly the names that read as a process id.
    pub fn from_entry_names(names: &Vec<String>) -> (r: ProcessesInfo)
        requires
            names@.len() <= u32::MAX,
        ensures
            r.spec_count() as nat == spec_numeric_count(names.deep_view()),
    {
        let mut count: u32 = 0;
        let mut i: usize = 0;
        proof {
            assert(names.deep_view().take(0) =~= Seq::<Seq<char>>::empty());
        }
        while i < names.len()
            invariant
                i <= names@.len(),
                names@.len() <= u32::MAX,
                names.deep_view().len() == names@.len(),
                count as nat == spec_numeric_count(names.deep_view().take(i as int)),
            decreases names@.len() - i,
        {
            proof {
                lemma_numeric_count_le_len(names.deep_view().take(i as int));
                assert(names.deep_view().take(i + 1).drop_last() =~= names.deep_view().take(
                    i as int,
                ));
                assert(names.deep_view().take(i + 1).last() == names.deep_view()[i as int]);
                assert(names.deep_view()[i as int] == names@[i as int]@);
            }
            if is_numeric_name(names[i].as_str()) {
                count += 1;
            }
            i += 1;
        }
        proof {
            assert(names.deep_view().take(names@.len() as int) =~= names.deep_view());
        }
        ProcessesInfo { count }
    }
}

impl Module for ProcessesInfo {
    open spec fn is_blank(&self) -> bool {
        self.spec_count() == 0
    }

    open spec fn resolved_title(config: &Configuration) -> Seq<char> {
        config.processes.title@
    }

    open spec fn resolved_color(config: &Configuration) -> CrabFetchColor {
        spec_resolve_color(config.processes.title_color, config.title_color)
    }

    open spec fn resolved_bold(config: &Configuration) -> bool {
        spec_resolve_bool(config.processes.title_bold, config.title_bold)
    }

    open spec fn resolved_italic(config: &Configuration) -> bool {
        spec_resolve_bool(config.processes.title_italic, config.title_italic)
    }

    open spec fn resolved_separator(config: &Configuration) -> Seq<char> {
        spec_resolve_string(config.processes.seperator, config.seperator@)
    }

    open spec fn replaced(&self, config: &Configuration) -> Seq<char> {
        spec_replace(
            spec_resolve_string(config.processes.format, "{count}"@),
            "{count}"@,
            spec_decimal(self.spec_count() as nat),
        )
    }

    fn new() -> (r: ProcessesInfo) {
        ProcessesInfo { count: 0 }
    }

    fn replace_placeholders(&self, config: &Configuration) -> (r: String) {
        let format = resolve_str(&config.processes.format, "{count}");
        let count_str = u32_to_decimal(self.count);
        replace_all(format, "{count}", count_str.as_str())
    }

    fn style(&self, config: &Configuration, max_title_size: u64) -> (r: String) {
        let title_color = resolve_color(&config.processes.title_color, &config.title_color);
        let title_bold = resolve_bool(&config.processes.title_bold, config.title_bold);
        let title_italic = resolve_bool(&config.processes.title_italic, config.title_italic);
        let seperator = resolve_str(&config.processes.seperator, config.seperator.as_str());
        let text = self.replace_placeholders(config);
        let value = self.replace_color_placeholders(text.as_str());
        default_style(
            max_title_size,
            config.processes.title.as_str(),
            &title_color,
            title_bold,
            title_italic,
            seperator,
            value.as_str(),
        )
    }

    fn unknown_output(config: &Configuration, max_title_size: u64) -> (r: String) {
        let title_color = resolve_color(&config.processes.title_color, &config.title_color);
        let title_bold = resolve_bool(&config.processes.title_bold, config.title_bold);
        let title_italic = resolve_bool(&config.processes.title_italic, config.title_italic);
        let seperator = resolve_str(&config.processes.seperator, config.seperator.as_str());
        default_style(
            max_title_size,
            config.processes.title.as_str(),
            &title_color,
            title_bold,
            title_italic,
            seperator,
            "Unknown",
        )
    }
}

} // verus!
