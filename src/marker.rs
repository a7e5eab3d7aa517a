//! The version marker: a small text file holding the schema version of a
//! database directory as a decimal number.
use vstd::prelude::*;

verus! {

/// Name of the marker file inside the database directory.
pub const VERSION_FILE_NAME: &'static str = "db_version";

/// Name of the directory, inside the database directory, that holds the store.
pub const DATABASE_DIR_NAME: &'static str = "db";

pub open spec fn is_digit(b: u8) -> bool {
    48 <= b <= 57
}

pub open spec fn all_digits(s: Seq<u8>) -> bool {
    forall|i: int| 0 <= i < s.len() ==> is_digit(#[trigger] s[i])
}

/// Value of a string of ASCII decimal digits, most significant first.
pub open spec fn digits_value(s: Seq<u8>) -> nat
    decreases s.len(),
{
    if s.len() == 0 {
        0
    } else {
        digits_value(s.drop_last()) * 10 + (s.last() - 48) as nat
    }
}

/// The digits of the marker text: one leading `+` is allowed before them.
pub open spec fn marker_digits(s: Seq<u8>) -> Seq<u8> {
    if s.len() > 1 && s[0] == 43 {
        s.drop_first()
    } else {
        s
    }
}

/// The version a marker text holds: one or more decimal digits, after an
/// optional `+`, whose value fits in a `u32`; nothing else around them.
pub open spec fn spec_parse(s: Seq<u8>) -> Option<u32> {
    let d = marker_digits(s);
    if d.len() > 0 && all_digits(d) && digits_value(d) <= u32::MAX {
        Some(digits_value(d) as u32)
    } else {
        None
    }
}

/// Shortest decimal text of `v`.
pub open spec fn decimal(v: nat) -> Seq<u8>
    decreases v,
{
    if v < 10 {
        seq![(48 + v) as u8]
    } else {
        decimal(v / 10).push((48 + v % 10) as u8)
    }
}

proof fn lemma_prefix_value_le(s: Seq<u8>, k: int)
    requires
        all_digits(s),
        0 <= k <= s.len(),
    ensures
        digits_value(s.subrange(0, k)) <= digits_value(s),
    decreases s.len(),
{
    if k < s.len() {
        assert(s.drop_last().subrange(0, k) =~= s.subrange(0, k));
        lemma_prefix_value_le(s.drop_last(), k);
    } else {
        assert(s.subrange(0, k) =~= s);
    }
}

/// Reads the version from the marker text; `None` where the text is not a
/// decimal `u32`.
pub fn parse_version(text: &[u8]) -> (r: Option<u32>)
    ensures
        r == spec_parse(text@),
{
    let n = text.len();
    let start: usize = if n > 1 && text[0] == 43 {
        1
    } else {
        0
    };
    let ghost d = marker_digits(text@);
    assert(d =~= text@.subrange(start as int, n as int));
    if start == n {
        assert(d.len() == 0);
        return None;
    }
    let mut acc: u64 = 0;
    let mut i: usize = start;
    while i < n
        invariant
            start <= i <= n,
            n == text@.len(),
            d.len() == n - start,
            d == marker_digits(text@),
            d =~= text@.subrange(start as int, n as int),
            acc as nat == digits_value(d.subrange(0, i - start)),
            acc <= u32::MAX,
            all_digits(d.subrange(0, i - start)),
        decreases n - i,
    {
        let b = text[i];
        assert(d[i - start] == b);
        if b < 48 || b > 57 {
            assert(!is_digit(d[i - start]));
            assert(!all_digits(d));
            return None;
        }
        let ghost before = d.subrange(0, i - start);
        let ghost after = d.subrange(0, i + 1 - start);
        assert(after.drop_last() =~= before);
        assert(all_digits(after)) by {
            assert forall|j: int| 0 <= j < after.len() implies is_digit(#[trigger] after[j]) by {
                if j < before.len() {
                    assert(after[j] == before[j]);
                }
            }
        }
        acc = acc * 10 + (b - 48) as u64;
        assert(after.last() == b);
        assert(acc as nat == digits_value(after));
        i = i + 1;
        if acc > 0xffff_ffff {
            proof {
                if all_digits(d) {
                    lemma_prefix_value_le(d, i - start);
                }
            }
            return None;
        }
    }
    assert(d.subrange(0, n - start) =~= d);
    Some(acc as u32)
}

/// Appends the decimal text of `v` to `out`.
fn push_decimal(v: u32, out: &mut Vec<u8>)
    ensures
        final(out)@ == old(out)@ + decimal(v as nat),
    decreases v,
{
    if v >= 10 {
        push_decimal(v / 10, out);
    }
    out.push(48 + (v % 10) as u8);
    proof {
        if v < 10 {
            assert(decimal(v as nat) =~= seq![(48 + v) as u8]);
        }
    }
    assert(final(out)@ =~= old(out)@ + decimal(v as nat));
}

/// The marker text for `version`: its shortest decimal form.
pub fn marker_text(version: u32) -> (r: Vec<u8>)
    ensures
        r@ == decimal(version as nat),
        spec_parse(r@) == Some(version),
{
    let mut out: Vec<u8> = Vec::new();
    push_decimal(version, &mut out);
    assert(out@ =~= decimal(version as nat));
    proof {
        lemma_decimal_round_trip(version as nat);
    }
    out
}

/// Reading back the marker text that is written for a version gives that
/// version again.
pub proof fn lemma_decimal_round_trip(v: nat)
    ensures
        decimal(v).len() > 0,
        all_digits(decimal(v)),
        digits_value(decimal(v)) == v,
        v <= u32::MAX ==> spec_parse(decimal(v)) == Some(v as u32),
    decreases v,
{
    let s = decimal(v);
    if v >= 10 {
        lemma_decimal_round_trip(v / 10);
        assert(s.drop_last() =~= decimal(v / 10));
        assert(s.last() == (48 + v % 10) as u8);
        assert((s.last() - 48) as nat == v % 10);
        assert(v == (v / 10) * 10 + v % 10);
        assert(all_digits(s)) by {
            assert forall|j: int| 0 <= j < s.len() implies is_digit(#[trigger] s[j]) by {
                if j < s.len() - 1 {
                    assert(s[j] == decimal(v / 10)[j]);
                }
            }
        }
    } else {
        assert(s.drop_last() =~= Seq::<u8>::empty());
        assert(s.last() == (48 + v) as u8);
        assert(digits_value(s.drop_last()) == 0);
    }
    assert(is_digit(s[0]));
    assert(marker_digits(s) == s);
}

} // verus!
