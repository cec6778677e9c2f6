use vstd::prelude::*;

use crate::color::{
    bold_seq, bold_str, color_escape_seq, color_escape_str, italic_seq, italic_str, reset_seq,
    reset_str, CrabFetchColor,
};

verus! {

/// `n` space characters.
pub open spec fn spec_spaces(n: nat) -> Seq<char> {
    Seq::new(n, |i: int| ' ')
}

/// The title padded with trailing spaces to `max` characters. A title at or
/// beyond `max` is kept as it is: pure left alignment, no truncation.
pub open spec fn spec_padded_title(title: Seq<char>, max: nat) -> Seq<char> {
    if title.len() >= max {
        title
    } else {
        title + spec_spaces((max - title.len()) as nat)
    }
}

/// The escape sequences that open a title's styling: bold, then italic, then
/// the foreground colour. `Clear` means no colour and opens nothing.
pub open spec fn spec_style_open(color: CrabFetchColor, bold: bool, italic: bool) -> Seq<char> {
    (if bold {
        bold_seq()
    } else {
        Seq::<char>::empty()
    }) + (if italic {
        italic_seq()
    } else {
        Seq::<char>::empty()
    }) + (if color == CrabFetchColor::Clear {
        Seq::<char>::empty()
    } else {
        color_escape_seq(color)
    })
}

/// Everything of a rendered line that precedes the value: opening styling,
/// padded title, a reset that closes the title's styling, and the separator.
pub open spec fn spec_line_prefix(
    title: Seq<char>,
    color: CrabFetchColor,
    bold: bool,
    italic: bool,
    sep: Seq<char>,
    max: nat,
) -> Seq<char> {
    spec_style_open(color, bold, italic) + spec_padded_title(title, max) + reset_seq() + sep
}

/// One fully rendered line: `<style-open><title><padding><reset><separator><value>`.
/// The value arrives already substituted and styled; no reset follows it here.
pub open spec fn spec_default_style(
    title: Seq<char>,
    color: CrabFetchColor,
    bold: bool,
    italic: bool,
    sep: Seq<char>,
    value: Seq<char>,
    max: nat,
) -> Seq<char> {
    spec_line_prefix(title, color, bold, italic, sep, max) + value
}

/// Alignment invariant: two lines rendered from the same resolved styling and
/// the same width differ only in the value. They share the entire prefix up
/// to the value, and the rendered title width does not depend on the value.
pub proof fn lemma_alignment_invariant(
    title: Seq<char>,
    color: CrabFetchColor,
    bold: bool,
    italic: bool,
    sep: Seq<char>,
    v1: Seq<char>,
    v2: Seq<char>,
    max: nat,
)
    ensures
        spec_default_style(title, color, bold, italic, sep, v1, max) == spec_line_prefix(
            title,
            color,
            bold,
            italic,
            sep,
            max,
        ) + v1,
        spec_default_style(title, color, bold, italic, sep, v2, max) == spec_line_prefix(
            title,
            color,
            bold,
            italic,
            sep,
            max,
        ) + v2,
        spec_padded_title(title, max).len() == if title.len() >= max {
            title.len()
        } else {
            max
        },
{
}

/// The shared styling routine every module delegates to: pads the resolved
/// title to `max_title_size` characters, wraps it in the resolved styling
/// with a reset before the separator, and appends separator and value
/// verbatim.
pub fn default_style(
    max_title_size: u64,
    title: &str,
    color: &CrabFetchColor,
    title_bold: bool,
    title_italic: bool,
    seperator: &str,
    value: &str,
) -> (r: String)
    ensures
        r@ == spec_default_style(
            title@,
            *color,
            title_bold,
            title_italic,
            seperator@,
            value@,
            max_title_size as nat,
        ),
{
    let mut out: String = String::new();
    if title_bold {
        out.append(bold_str());
    }
    if title_italic {
        out.append(italic_str());
    }
    let is_clear = matches!(color, CrabFetchColor::Clear);
    if !is_clear {
        out.append(color_escape_str(color));
    }
    proof {
        assert(out@ =~= spec_style_open(*color, title_bold, title_italic));
    }
    out.append(title);
    let tlen: usize = title.unicode_len();
    if (tlen as u64) < max_title_size {
        let pad: u64 = max_title_size - (tlen as u64);
        let mut j: u64 = 0;
        proof {
            reveal_strlit(" ");
            assert(spec_spaces(0) =~= Seq::<char>::empty());
            assert(out@ + spec_spaces(0) =~= out@);
        }
        let ghost base = out@;
        while j < pad
            invariant
                j <= pad,
                out@ == base + spec_spaces(j as nat),
            decreases pad - j,
        {
            out.append(" ");
            j += 1;
            proof {
                reveal_strlit(" ");
                assert(" "@ =~= spec_spaces(1));
                assert(base + spec_spaces((j - 1) as nat) + spec_spaces(1) =~= base + spec_spaces(
                    j as nat,
                ));
            }
        }
    }
    proof {
        assert(out@ =~= spec_style_open(*color, title_bold, title_italic) + spec_padded_title(
            title@,
            max_title_size as nat,
        ));
    }
    out.append(reset_str());
    out.append(seperator);
    out.append(value);
    proof {
        assert(out@ =~= spec_default_style(
            title@,
            *color,
            title_bold,
            title_italic,
            seperator@,
            value@,
            max_title_size as nat,
        ));
    }
    out
}

/// The length, in characters, of the longest title among the given titles;
/// zero when there are none. The orchestrator computes this once per run
/// over the enabled modules and hands it to every render call.
pub open spec fn spec_max_title_size(titles: Seq<Seq<char>>) -> nat
    decreases titles.len(),
{
    if titles.len() == 0 {
        0
    } else {
        let rest = spec_max_title_size(titles.drop_last());
        if titles.last().len() > rest {
            titles.last().len()
        } else {
            rest
        }
    }
}

/// Computes the width every title column is padded to: the character length
/// of the longest of the given titles.
pub fn max_title_size(titles: &Vec<String>) -> (r: u64)
    ensures
        r as nat == spec_max_title_size(titles.deep_view()),
{
    let mut m: u64 = 0;
    let mut i: usize = 0;
    proof {
        assert(titles.deep_view().take(0) =~= Seq::<Seq<char>>::empty());
    }
    while i < titles.len()
        invariant
            i <= titles@.len(),
            titles.deep_view().len() == titles@.len(),
            m as nat == spec_max_title_size(titles.deep_view().take(i as int)),
        decreases titles@.len() - i,
    {
        let tlen: usize = titles[i].as_str().unicode_len();
        proof {
            assert(titles.deep_view()[i as int] == titles@[i as int]@);
            assert(titles.deep_view().take(i + 1).drop_last() =~= titles.deep_view().take(
                i as int,
            ));
            assert(titles.deep_view().take(i + 1).last() == titles.deep_view()[i as int]);
        }
        if (tlen as u64) > m {
            m = tlen as u64;
        }
        i += 1;
    }
    proof {
        assert(titles.deep_view().take(titles@.len() as int) =~= titles.deep_view());
    }
    m
}

} // verus!
