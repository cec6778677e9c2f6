use vstd::prelude::*;

verus! {

/// The decimal digit character for `d`, which must be below ten.
pub open spec fn spec_digit_char(d: nat) -> char {
    if d == 0 {
        '0'
    } else if d == 1 {
        '1'
    } else if d == 2 {
        '2'
    } else if d == 3 {
        '3'
    } else if d == 4 {
        '4'
    } else if d == 5 {
        '5'
    } else if d == 6 {
        '6'
    } else if d == 7 {
        '7'
    } else if d == 8 {
        '8'
    } else {
        '9'
    }
}

/// The decimal rendering of `n`: most significant digit first, no sign, no
/// leading zeroes, and a single `0` for zero.
pub open spec fn spec_decimal(n: nat) -> Seq<char>
    decreases n,
{
    if n < 10 {
        seq![spec_digit_char(n)]
    } else {
        spec_decimal(n / 10) + seq![spec_digit_char(n % 10)]
    }
}

/// The decimal digit `d` as a one-character string.
fn digit_str(d: u32) -> (r: &'static str)
    requires
        d < 10,
    ensures
        r@ == seq![spec_digit_char(d as nat)],
{
    let r: &'static str = match d {
        0 => "0",
        1 => "1",
        2 => "2",
        3 => "3",
        4 => "4",
        5 => "5",
        6 => "6",
        7 => "7",
        8 => "8",
        _ => "9",
    };
    proof {
        reveal_strlit("0");
        reveal_strlit("1");
        reveal_strlit("2");
        reveal_strlit("3");
        reveal_strlit("4");
        reveal_strlit("5");
        reveal_strlit("6");
        reveal_strlit("7");
        reveal_strlit("8");
        reveal_strlit("9");
        assert(r@ =~= seq![spec_digit_char(d as nat)]);
    }
    r
}

/// Renders `n` in decimal, exactly as `spec_decimal` states.
pub fn u32_to_decimal(n: u32) -> (r: String)
    ensures
        r@ == spec_decimal(n as nat),
    decreases n,
{
    if n < 10 {
        digit_str(n).to_owned()
    } else {
        let mut s = u32_to_decimal(n / 10);
        s.append(digit_str(n % 10));
        proof {
            assert(s@ =~= spec_decimal(n as nat));
        }
        s
    }
}

/// Whether `c` is a decimal digit.
pub open spec fn spec_is_digit(c: char) -> bool {
    48 <= c as int && c as int <= 57
}

/// The numeric value of a digit string, most significant digit first. Only
/// meaningful when every character is a digit.
pub open spec fn spec_digits_val(s: Seq<char>) -> nat
    decreases s.len(),
{
    if s.len() == 0 {
        0
    } else {
        spec_digits_val(s.drop_last()) * 10 + (s.last() as int - 48) as nat
    }
}

/// The value of a digit string never falls when characters are appended.
proof fn lemma_digits_val_prefix(s: Seq<char>, i: int)
    requires
        0 <= i <= s.len(),
    ensures
        spec_digits_val(s) >= spec_digits_val(s.subrange(0, i)),
    decreases s.len() - i,
{
    if i == s.len() {
        assert(s.subrange(0, i) =~= s);
    } else {
        lemma_digits_val_prefix(s, i + 1);
        assert(s.subrange(0, i + 1).drop_last() =~= s.subrange(0, i));
        let v = spec_digits_val(s.subrange(0, i));
        assert(v * 10 >= v) by (nonlinear_arith)
            requires
                v >= 0,
        ;
    }
}

/// Whether `ds` is a non-empty digit string whose value fits in an unsigned
/// 64-bit integer.
pub open spec fn spec_digits_ok(ds: Seq<char>) -> bool {
    ds.len() > 0 && (forall|k: int| 0 <= k < ds.len() ==> spec_is_digit(#[trigger] ds[k]))
        && spec_digits_val(ds) <= u64::MAX
}

/// Whether a directory entry name counts as a process id: an optional
/// leading `+`, then at least one decimal digit, with a value that fits in
/// an unsigned 64-bit integer. This mirrors what parsing the name as such an
/// integer accepts.
pub open spec fn spec_is_numeric_name(s: Seq<char>) -> bool {
    if s.len() > 0 && s[0] == '+' {
        spec_digits_ok(s.skip(1))
    } else {
        spec_digits_ok(s)
    }
}

/// Decides whether a directory entry name counts as a process id, exactly as
/// `spec_is_numeric_name` states.
pub fn is_numeric_name(s: &str) -> (r: bool)
    ensures
        r == spec_is_numeric_name(s@),
{
    let n: usize = s.unicode_len();
    if n == 0 {
        return false;
    }
    let start: usize = if s.get_char(0) == '+' {
        1
    } else {
        0
    };
    let ghost ds = if s@[0] == '+' {
        s@.skip(1)
    } else {
        s@
    };
    if n == start {
        return false;
    }
    let mut acc: u128 = 0;
    let mut i: usize = start;
    proof {
        assert(ds.subrange(0, 0) =~= Seq::<char>::empty());
    }
    while i < n
        invariant
            start <= i <= n,
            n == s@.len(),
            start == 1 ==> s@[0] == '+',
            start == 0 ==> !(s@.len() > 0 && s@[0] == '+'),
            ds == if s@.len() > 0 && s@[0] == '+' {
                s@.skip(1)
            } else {
                s@
            },
            ds.len() == n - start,
            forall|k: int| 0 <= k < i - start ==> spec_is_digit(#[trigger] ds[k]),
            acc <= u64::MAX,
            acc as nat == spec_digits_val(ds.subrange(0, i - start)),
        decreases n - i,
    {
        let c = s.get_char(i);
        let v = c as u32;
        if v < 48 || v > 57 {
            proof {
                assert(!spec_is_digit(ds[i - start]));
                assert(!spec_digits_ok(ds));
            }
            return false;
        }
        let d: u32 = v - 48;
        let next: u128 = acc * 10 + (d as u128);
        proof {
            assert(ds.subrange(0, i - start + 1).drop_last() =~= ds.subrange(0, i - start));
            assert(ds.subrange(0, i - start + 1).last() == ds[i - start]);
            assert(ds[i - start] == s@[i as int]);
            assert((s@[i as int] as int - 48) as nat == d as nat);
        }
        if next > (u64::MAX as u128) {
            proof {
                assert(spec_digits_val(ds.subrange(0, i - start + 1)) == acc as nat * 10 + (
                d as nat));
                assert(next as nat == acc as nat * 10 + (d as nat));
                if spec_is_numeric_name(s@) {
                    assert(spec_digits_ok(ds));
                    lemma_digits_val_prefix(ds, i - start + 1);
                    assert(spec_digits_val(ds) <= u64::MAX);
                    assert(false);
                }
            }
            return false;
        }
        acc = next;
        i += 1;
    }
    proof {
        assert(ds.subrange(0, n - start) =~= ds);
        assert(spec_digits_ok(ds));
    }
    true
}

} // verus!
