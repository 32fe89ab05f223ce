//! Normalization and comparison of texts.
//!
//! Before any comparison, every carriage-return-then-line-feed pair in both
//! the reference content and the captured output is replaced by a single
//! line feed, so verdicts do not depend on the platform's line endings. The
//! comparison itself is substring containment, its negation, or exact
//! equality of character sequences — nothing fuzzy.

use vstd::prelude::*;
use vstd::string::StrSliceExecFns;

use crate::args::ComparisonType;

verus! {

/// One CRLF pair, the only sequence normalization rewrites.
pub open spec fn crlf() -> Seq<char> {
    seq!['\r', '\n']
}

/// Left-to-right, non-overlapping replacement of every CRLF pair by a lone
/// line feed.
pub open spec fn normalize_spec(s: Seq<char>) -> Seq<char>
    decreases s.len(),
{
    if s.len() >= 2 && s[0] == '\r' && s[1] == '\n' {
        seq!['\n'] + normalize_spec(s.skip(2))
    } else if s.len() >= 1 {
        seq![s[0]] + normalize_spec(s.skip(1))
    } else {
        Seq::empty()
    }
}

/// `pat` occurs in `text` starting at position `i`.
pub open spec fn occurs_at(text: Seq<char>, pat: Seq<char>, i: int) -> bool {
    0 <= i && i + pat.len() <= text.len() && text.subrange(i, i + pat.len() as int) == pat
}

/// `pat` occurs somewhere in `text` as a contiguous subsequence. The empty
/// pattern occurs in every text.
pub open spec fn contains_seq(text: Seq<char>, pat: Seq<char>) -> bool {
    exists|i: int| occurs_at(text, pat, i)
}

/// The verdict of one comparison mode on already-normalized texts.
pub open spec fn compare_spec(reference: Seq<char>, output: Seq<char>, mode: ComparisonType) -> bool {
    match mode {
        ComparisonType::ShouldContain => contains_seq(output, reference),
        ComparisonType::ShouldNotContain => !contains_seq(output, reference),
        ComparisonType::ShouldEqual => output == reference,
    }
}

/// The whole comparison pipeline on raw texts: normalize both, then compare.
pub open spec fn verdict_spec(reference: Seq<char>, output: Seq<char>, mode: ComparisonType) -> bool {
    compare_spec(normalize_spec(reference), normalize_spec(output), mode)
}

/// The characters of a string slice, in order.
pub fn to_chars(s: &str) -> (r: Vec<char>)
    ensures
        r@ == s@,
{
    let n = s.unicode_len();
    let mut r: Vec<char> = Vec::new();
    let mut i: usize = 0;
    while i < n
        invariant
            n == s@.len(),
            i <= n,
            r@ == s@.subrange(0, i as int),
        decreases n - i,
    {
        let c = s.get_char(i);
        r.push(c);
        i = i + 1;
        proof {
            assert(r@ =~= s@.subrange(0, i as int));
        }
    }
    proof {
        assert(r@ =~= s@);
    }
    r
}

/// Replaces every CRLF pair by a lone line feed, scanning left to right.
pub fn normalize(s: &Vec<char>) -> (r: Vec<char>)
    ensures
        r@ == normalize_spec(s@),
{
    let n = s.len();
    let mut r: Vec<char> = Vec::new();
    let mut i: usize = 0;
    proof {
        assert(s@.skip(0) =~= s@);
        assert(r@ + normalize_spec(s@) =~= normalize_spec(s@));
    }
    while i < n
        invariant
            n == s@.len(),
            i <= n,
            normalize_spec(s@) == r@ + normalize_spec(s@.skip(i as int)),
        decreases n - i,
    {
        let ghost prev: Seq<char> = r@;
        let ghost rest: Seq<char> = s@.skip(i as int);
        if i + 1 < n && s[i] == '\r' && s[i + 1] == '\n' {
            r.push('\n');
            i = i + 2;
            proof {
                assert(rest.len() >= 2);
                assert(rest[0] == '\r');
                assert(rest[1] == '\n');
                assert(rest.skip(2) =~= s@.skip(i as int));
                assert(normalize_spec(rest) == seq!['\n'] + normalize_spec(s@.skip(i as int)));
                assert(prev + normalize_spec(rest) =~= r@ + normalize_spec(s@.skip(i as int)));
            }
        } else {
            r.push(s[i]);
            i = i + 1;
            proof {
                assert(rest.len() >= 1);
                assert(!(rest.len() >= 2 && rest[0] == '\r' && rest[1] == '\n'));
                assert(rest.skip(1) =~= s@.skip(i as int));
                assert(normalize_spec(rest) == seq![rest[0]] + normalize_spec(s@.skip(i as int)));
                assert(prev + normalize_spec(rest) =~= r@ + normalize_spec(s@.skip(i as int)));
            }
        }
    }
    proof {
        assert(s@.skip(n as int) =~= Seq::<char>::empty());
        assert(r@ + normalize_spec(s@.skip(n as int)) =~= r@);
    }
    r
}

/// Substring search: does `text` contain `pat` as a contiguous run?
pub fn contains_chars(text: &Vec<char>, pat: &Vec<char>) -> (r: bool)
    ensures
        r == contains_seq(text@, pat@),
{
    let n = text.len();
    let m = pat.len();
    if m > n {
        proof {
            assert forall|i: int| !occurs_at(text@, pat@, i) by {
                assert(i + pat@.len() > text@.len() || i < 0);
            }
        }
        return false;
    }
    let mut i: usize = 0;
    while i <= n - m
        invariant
            n == text@.len(),
            m == pat@.len(),
            m <= n,
            i <= n - m + 1,
            forall|k: int| 0 <= k < i ==> !occurs_at(text@, pat@, k),
        decreases n - m - i + 1,
    {
        let mut j: usize = 0;
        while j < m && text[i + j] == pat[j]
            invariant
                n == text@.len(),
                m == pat@.len(),
                i + m <= n,
                j <= m,
                forall|t: int| 0 <= t < j ==> text@[i + t] == pat@[t],
            decreases m - j,
        {
            j = j + 1;
        }
        if j == m {
            proof {
                assert(text@.subrange(i as int, i as int + m as int) =~= pat@);
                assert(occurs_at(text@, pat@, i as int));
            }
            return true;
        }
        proof {
            if occurs_at(text@, pat@, i as int) {
                assert(text@.subrange(i as int, i as int + m as int)[j as int] == pat@[j as int]);
                assert(false);
            }
        }
        i = i + 1;
    }
    proof {
        assert forall|k: int| !occurs_at(text@, pat@, k) by {
            if 0 <= k && k + pat@.len() <= text@.len() {
                assert(k < i);
            }
        }
    }
    false
}

/// Exact equality of two character sequences.
pub fn chars_equal(a: &Vec<char>, b: &Vec<char>) -> (r: bool)
    ensures
        r == (a@ == b@),
{
    if a.len() != b.len() {
        return false;
    }
    let n = a.len();
    let mut i: usize = 0;
    while i < n
        invariant
            n == a@.len(),
            n == b@.len(),
            i <= n,
            forall|k: int| 0 <= k < i ==> a@[k] == b@[k],
        decreases n - i,
    {
        if a[i] != b[i] {
            return false;
        }
        i = i + 1;
    }
    proof {
        assert(a@ =~= b@);
    }
    true
}

/// Applies the comparison mode to two already-normalized texts.
pub fn compare(reference: &Vec<char>, output: &Vec<char>, mode: ComparisonType) -> (r: bool)
    ensures
        r == compare_spec(reference@, output@, mode),
{
    match mode {
        ComparisonType::ShouldContain => contains_chars(output, reference),
        ComparisonType::ShouldNotContain => !contains_chars(output, reference),
        ComparisonType::ShouldEqual => chars_equal(output, reference),
    }
}

/// Normalizes the reference content and the captured output identically,
/// then applies the comparison mode: the assertion's whole verdict.
pub fn evaluate(reference: &str, output: &str, mode: ComparisonType) -> (r: bool)
    ensures
        r == verdict_spec(reference@, output@, mode),
{
    let reference_chars = to_chars(reference);
    let normalized_reference = normalize(&reference_chars);
    let output_chars = to_chars(output);
    let normalized_output = normalize(&output_chars);
    compare(&normalized_reference, &normalized_output, mode)
}

/// For every reference text and captured output, the contain mode is exactly
/// substring containment of the reference in the output, and the not-contain
/// mode is its exact logical negation on the same inputs.
pub proof fn lemma_not_contain_negates_contain(reference: Seq<char>, output: Seq<char>)
    ensures
        compare_spec(reference, output, ComparisonType::ShouldContain) == contains_seq(
            output,
            reference,
        ),
        compare_spec(reference, output, ComparisonType::ShouldNotContain) == !compare_spec(
            reference,
            output,
            ComparisonType::ShouldContain,
        ),
{
}

/// For every reference text and captured output, the equality mode holds
/// exactly when the two texts are the same character sequence; in
/// particular it is reflexive.
pub proof fn lemma_equal_mode_is_equality(reference: Seq<char>, output: Seq<char>)
    ensures
        compare_spec(reference, output, ComparisonType::ShouldEqual) == (reference == output),
        compare_spec(reference, reference, ComparisonType::ShouldEqual),
{
}

/// Normalization is a no-op on text that is already normal: where no CRLF
/// pair occurs, the text comes back unchanged.
pub proof fn lemma_normalize_noop(s: Seq<char>)
    requires
        !contains_seq(s, crlf()),
    ensures
        normalize_spec(s) == s,
    decreases s.len(),
{
    if s.len() == 0 {
        assert(normalize_spec(s) =~= s);
    } else {
        if s.len() >= 2 && s[0] == '\r' && s[1] == '\n' {
            assert(s.subrange(0, 2) =~= crlf());
            assert(occurs_at(s, crlf(), 0));
            assert(false);
        }
        assert forall|i: int| !occurs_at(s.skip(1), crlf(), i) by {
            if occurs_at(s.skip(1), crlf(), i) {
                assert(s.subrange(i + 1, i + 3) =~= s.skip(1).subrange(i, i + 2));
                assert(occurs_at(s, crlf(), i + 1));
            }
        }
        lemma_normalize_noop(s.skip(1));
        assert(normalize_spec(s) == seq![s[0]] + s.skip(1));
        assert(seq![s[0]] + s.skip(1) =~= s);
    }
}

} // verus!
