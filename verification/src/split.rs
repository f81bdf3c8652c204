//! The patch/split classifier: a pure mapping from a dotted game-version
//! string (`"<major>.<minor>.<patch>"`) to the competitive split it belongs
//! to.  The year is divided into three splits by minor-version ranges; a
//! minor version outside every range means the patch cannot be classified and
//! the caller must not trust the match for filtering.

use vstd::prelude::*;

verus! {

/// One of the three competitive sub-seasons of a year.
#[derive(Debug, Clone, Copy, PartialEq, Eq, Structural)]
pub enum Split {
    Split1,
    Split2,
    Split3,
}

/// True for the ten ASCII decimal digits.
pub open spec fn is_ascii_digit(c: char) -> bool {
    48 <= (c as u32) <= 57
}

/// Numeric value of one ASCII decimal digit.
pub open spec fn digit_value(c: char) -> nat {
    ((c as u32) - 48) as nat
}

/// Every character of the sequence is an ASCII decimal digit.
pub open spec fn is_digit_seq(s: Seq<char>) -> bool {
    forall|i: int| 0 <= i < s.len() ==> is_ascii_digit(#[trigger] s[i])
}

/// The number denoted by a sequence of decimal digits, most significant
/// digit first.
pub open spec fn digits_value(s: Seq<char>) -> nat
    decreases s.len(),
{
    if s.len() == 0 {
        0
    } else {
        digits_value(s.drop_last()) * 10 + digit_value(s.last())
    }
}

/// Index of the first `'.'` in the sequence, or its length if there is none.
pub open spec fn first_dot(s: Seq<char>) -> int
    decreases s.len(),
{
    if s.len() == 0 {
        0
    } else if s[0] == '.' {
        0
    } else {
        1 + first_dot(s.skip(1))
    }
}

/// The second dot-delimited field of the version string: everything between
/// the first `'.'` and the following `'.'` (or the end).  `None` when the
/// string has no `'.'` at all.
pub open spec fn minor_field(s: Seq<char>) -> Option<Seq<char>> {
    if first_dot(s) == s.len() {
        None
    } else {
        let rest = s.subrange(first_dot(s) + 1, s.len() as int);
        Some(rest.subrange(0, first_dot(rest)))
    }
}

/// The minor version number of a dotted version string: the second field
/// parsed as an unsigned integer.  `None` when the field is missing, empty,
/// holds a non-digit, or does not fit in a `u32`.
pub open spec fn spec_minor_version(s: Seq<char>) -> Option<u32> {
    match minor_field(s) {
        Option::None => Option::None,
        Option::Some(f) => if f.len() > 0 && is_digit_seq(f) && digits_value(f) <= u32::MAX {
            Option::Some(digits_value(f) as u32)
        } else {
            Option::None
        },
    }
}

/// The split a minor version falls in: three fixed, contiguous, closed
/// intervals; anything above the last interval is unclassified.
pub open spec fn spec_split_of_minor(minor: u32) -> Option<Split> {
    if minor <= 9 {
        Option::Some(Split::Split1)
    } else if minor <= 18 {
        Option::Some(Split::Split2)
    } else if minor <= 24 {
        Option::Some(Split::Split3)
    } else {
        Option::None
    }
}

/// The split a whole version string falls in.
pub open spec fn spec_split_of_patch(s: Seq<char>) -> Option<Split> {
    match spec_minor_version(s) {
        Option::None => Option::None,
        Option::Some(m) => spec_split_of_minor(m),
    }
}

/// `first_dot` stays within `[0, len]`.
proof fn lemma_first_dot_in_range(s: Seq<char>)
    ensures
        0 <= first_dot(s) <= s.len(),
    decreases s.len(),
{
    if s.len() != 0 && s[0] != '.' {
        lemma_first_dot_in_range(s.skip(1));
    }
}

/// A position that is preceded by no dot, and that either carries a dot or
/// is the end of the sequence, is exactly `first_dot`.
proof fn lemma_first_dot_is(s: Seq<char>, i: int)
    requires
        0 <= i <= s.len(),
        forall|j: int| 0 <= j < i ==> #[trigger] s[j] != '.',
        i < s.len() ==> s[i] == '.',
    ensures
        first_dot(s) == i,
    decreases s.len(),
{
    if i == 0 {
    } else {
        assert(s[0] != '.');
        let t = s.skip(1);
        assert(forall|j: int| 0 <= j < i - 1 ==> #[trigger] t[j] == s[j + 1]);
        lemma_first_dot_is(t, i - 1);
    }
}

/// `first_dot` lies past any dot-free prefix.
proof fn lemma_first_dot_at_least(s: Seq<char>, m: int)
    requires
        0 <= m <= s.len(),
        forall|j: int| 0 <= j < m ==> #[trigger] s[j] != '.',
    ensures
        first_dot(s) >= m,
    decreases s.len(),
{
    lemma_first_dot_in_range(s);
    if m > 0 {
        assert(s[0] != '.');
        let t = s.skip(1);
        assert(forall|j: int| 0 <= j < m - 1 ==> #[trigger] t[j] == s[j + 1]);
        lemma_first_dot_at_least(t, m - 1);
        assert(first_dot(s) == 1 + first_dot(t));
    }
}

impl Split {
    /// Classifies a minor version by the fixed split boundary table.
    pub fn from_major(major_version: u32) -> (r: Option<Split>)
        ensures
            r == spec_split_of_minor(major_version),
    {
        if major_version <= 9 {
            Some(Split::Split1)
        } else if major_version <= 18 {
            Some(Split::Split2)
        } else if major_version <= 24 {
            Some(Split::Split3)
        } else {
            None
        }
    }
}

/// The value of a digit prefix never exceeds the value of the whole digit
/// sequence.
pub proof fn lemma_digits_value_prefix(s: Seq<char>, k: int)
    requires
        0 <= k <= s.len(),
        is_digit_seq(s),
    ensures
        digits_value(s.subrange(0, k)) <= digits_value(s),
    decreases s.len() - k,
{
    if k == s.len() {
        assert(s.subrange(0, k) =~= s);
    } else {
        let p = s.subrange(0, k);
        let q = s.subrange(0, k + 1);
        assert(q.drop_last() =~= p);
        assert(digits_value(q) == digits_value(p) * 10 + digit_value(s[k]));
        lemma_digits_value_prefix(s, k + 1);
    }
}

/// Returns the split a dotted game-version string belongs to, or `None`
/// when the string has no parsable minor version or the minor version lies
/// outside every split boundary.
pub fn get_split_from_patch(patch: &str) -> (r: Option<Split>)
    ensures
        r == spec_split_of_patch(patch@),
{
    let n = patch.unicode_len();
    let mut i: usize = 0;
    while i < n && patch.get_char(i) != '.'
        invariant
            0 <= i <= n,
            n == patch@.len(),
            forall|j: int| 0 <= j < i ==> #[trigger] patch@[j] != '.',
        decreases n - i,
    {
        i += 1;
    }
    proof {
        lemma_first_dot_is(patch@, i as int);
    }
    if i == n {
        return None;
    }
    // The minor field runs from i + 1 up to the next dot or the end.
    let ghost rest = patch@.subrange(i + 1, n as int);
    let mut j: usize = i + 1;
    let mut val: u64 = 0;
    while j < n && patch.get_char(j) != '.'
        invariant
            i + 1 <= j <= n,
            n == patch@.len(),
            i < n,
            first_dot(patch@) == i,
            rest == patch@.subrange(i + 1, n as int),
            forall|k: int| i + 1 <= k < j ==> #[trigger] patch@[k] != '.',
            is_digit_seq(patch@.subrange(i + 1, j as int)),
            val <= u32::MAX ==> val == digits_value(patch@.subrange(i + 1, j as int)),
            val > u32::MAX ==> digits_value(patch@.subrange(i + 1, j as int)) > u32::MAX,
        decreases n - j,
    {
        let c = patch.get_char(j);
        let d = c as u32;
        let ghost pre = patch@.subrange(i + 1, j as int);
        let ghost ext = patch@.subrange(i + 1, j + 1);
        proof {
            assert(ext.drop_last() =~= pre);
        }
        if d < 48 || d > 57 {
            // A non-digit inside the minor field: the version cannot be
            // classified.
            proof {
                assert(forall|k: int|
                    0 <= k < rest.len() ==> #[trigger] rest[k] == patch@[i + 1 + k]);
                // Positions 0 ..= j - (i + 1) of the rest are dot-free: the
                // scanned stretch by the invariant, position j because the
                // loop condition let it through.
                assert(forall|k: int| 0 <= k < j - i ==> #[trigger] rest[k] != '.');
                lemma_first_dot_in_range(rest);
                lemma_first_dot_at_least(rest, j - i);
                let f = rest.subrange(0, first_dot(rest));
                assert(f[j - (i + 1)] == rest[j - (i + 1)]);
                assert(rest[j - (i + 1)] == patch@[j as int]);
                assert(!is_ascii_digit(f[j - (i + 1)]));
                assert(!is_digit_seq(f));
            }
            return None;
        }
        if val <= 0xffff_ffff {
            val = val * 10 + (d - 48) as u64;
        }
        j += 1;
    }
    // j is the end of the minor field: either the next dot or the end of the
    // string.
    proof {
        assert(forall|k: int| 0 <= k < rest.len() ==> #[trigger] rest[k] == patch@[i + 1 + k]);
        lemma_first_dot_is(rest, j - (i + 1));
        let f = rest.subrange(0, first_dot(rest));
        assert(f =~= patch@.subrange(i + 1, j as int));
    }
    if j == i + 1 {
        // Empty minor field ("14..1" or a trailing dot).
        return None;
    }
    if val > 0xffff_ffff {
        return None;
    }
    Split::from_major(val as u32)
}

} // verus!
