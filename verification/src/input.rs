//! Line-of-input normalisation: whitespace trimming, quote stripping and
//! wildcard detection for paths typed (or pasted) at the console.

use vstd::prelude::*;
use vstd::string::StrSliceExecFns;

verus! {

/// Character classified as whitespace when lines of input are trimmed.
pub open spec fn is_space(c: char) -> bool {
    c == ' ' || c == '\t' || c == '\n' || c == '\r'
}

/// Whether a typed line is to be expanded as a wildcard pattern.
pub open spec fn spec_has_wildcard(s: Seq<char>) -> bool {
    exists|i: int| 0 <= i < s.len() && s[i] == '*'
}

/// Returns true exactly when the line contains the wildcard marker `*`.
pub fn has_wildcard(s: &str) -> (r: bool)
    ensures
        r == spec_has_wildcard(s@),
{
    let n = s.unicode_len();
    let mut i: usize = 0;
    while i < n
        invariant
            n == s@.len(),
            i <= n,
            forall|j: int| 0 <= j < i ==> s@[j] != '*',
        decreases n - i,
    {
        if s.get_char(i) == '*' {
            return true;
        }
        i = i + 1;
    }
    false
}

/// The line with its leading whitespace removed.
pub open spec fn trim_start_spec(s: Seq<char>) -> Seq<char>
    decreases s.len(),
{
    if s.len() > 0 && is_space(s[0]) {
        trim_start_spec(s.drop_first())
    } else {
        s
    }
}

/// The line with its trailing whitespace removed.
pub open spec fn trim_end_spec(s: Seq<char>) -> Seq<char>
    decreases s.len(),
{
    if s.len() > 0 && is_space(s.last()) {
        trim_end_spec(s.drop_last())
    } else {
        s
    }
}

/// One leading double-quote character removed, if present.
pub open spec fn strip_quote_start(s: Seq<char>) -> Seq<char> {
    if s.len() > 0 && s[0] == '"' {
        s.drop_first()
    } else {
        s
    }
}

/// One trailing double-quote character removed, if present.
pub open spec fn strip_quote_end(s: Seq<char>) -> Seq<char> {
    if s.len() > 0 && s.last() == '"' {
        s.drop_last()
    } else {
        s
    }
}

/// How a raw line of console input is normalised before it is interpreted:
/// whitespace is trimmed from both ends, then one layer of surrounding
/// double quotes is removed (a quoted pasted path behaves like a bare one).
pub open spec fn spec_strip_line(s: Seq<char>) -> Seq<char> {
    strip_quote_start(strip_quote_end(trim_start_spec(trim_end_spec(s))))
}

/// A line pasted with surrounding double quotes is treated identically to
/// the bare line: for any line with no whitespace or quote at either end,
/// the quoted form and the bare form normalise to the same path.
pub proof fn lemma_quoted_line_equals_bare_line(s: Seq<char>)
    requires
        s.len() > 0 ==> !is_space(s[0]) && !is_space(s.last()) && s[0] != '"'
            && s.last() != '"',
    ensures
        spec_strip_line(seq!['"'] + s + seq!['"']) == spec_strip_line(s),
        spec_strip_line(s) == s,
{
    let q = seq!['"'] + s + seq!['"'];
    assert(q.len() == s.len() + 2);
    assert(q[0] == '"' && q.last() == '"');
    assert(trim_end_spec(q) == q);
    assert(trim_start_spec(q) == q);
    assert(strip_quote_end(q) =~= seq!['"'] + s);
    let q1 = seq!['"'] + s;
    assert(q1[0] == '"');
    assert(strip_quote_start(q1) =~= s);
    assert(trim_end_spec(s) == s);
    assert(trim_start_spec(s) == s);
    if s.len() > 0 {
        assert(strip_quote_end(s) == s);
        assert(strip_quote_start(s) == s);
    }
}

/// Returns true exactly when `c` is trimmed as whitespace.
pub fn is_space_char(c: char) -> (r: bool)
    ensures
        r == is_space(c),
{
    c == ' ' || c == '\t' || c == '\n' || c == '\r'
}

/// Normalises a raw line of console input: trims whitespace from both
/// ends, then strips one layer of surrounding double quotes.
pub fn strip_line(s: &str) -> (r: String)
    ensures
        r@ == spec_strip_line(s@),
{
    let n = s.unicode_len();
    let mut hi: usize = n;
    proof {
        assert(s@.subrange(0, n as int) =~= s@);
    }
    while hi > 0 && is_space_char(s.get_char(hi - 1))
        invariant
            n == s@.len(),
            hi <= n,
            trim_end_spec(s@) == trim_end_spec(s@.subrange(0, hi as int)),
        decreases hi,
    {
        proof {
            assert(s@.subrange(0, hi as int).last() == s@[hi - 1]);
            assert(s@.subrange(0, hi as int).drop_last() =~= s@.subrange(0, hi as int - 1));
        }
        hi = hi - 1;
    }
    let ghost te = s@.subrange(0, hi as int);
    proof {
        assert(trim_end_spec(te) == te);
    }
    let mut lo: usize = 0;
    while lo < hi && is_space_char(s.get_char(lo))
        invariant
            n == s@.len(),
            lo <= hi <= n,
            te == s@.subrange(0, hi as int),
            trim_end_spec(s@) == te,
            trim_start_spec(te) == trim_start_spec(s@.subrange(lo as int, hi as int)),
        decreases hi - lo,
    {
        proof {
            assert(s@.subrange(lo as int, hi as int)[0] == s@[lo as int]);
            assert(s@.subrange(lo as int, hi as int).drop_first() =~= s@.subrange(
                lo as int + 1,
                hi as int,
            ));
        }
        lo = lo + 1;
    }
    let ghost t = s@.subrange(lo as int, hi as int);
    proof {
        assert(trim_start_spec(te) == t);
        assert(trim_start_spec(trim_end_spec(s@)) == t);
    }
    // one trailing quote
    if hi > lo && s.get_char(hi - 1) == '"' {
        proof {
            assert(t.last() == s@[hi - 1]);
            assert(t.drop_last() =~= s@.subrange(lo as int, hi as int - 1));
        }
        hi = hi - 1;
    }
    let ghost q1 = s@.subrange(lo as int, hi as int);
    proof {
        assert(strip_quote_end(t) == q1);
    }
    // one leading quote
    if hi > lo && s.get_char(lo) == '"' {
        proof {
            assert(q1[0] == s@[lo as int]);
            assert(q1.drop_first() =~= s@.subrange(lo as int + 1, hi as int));
        }
        lo = lo + 1;
    }
    proof {
        assert(strip_quote_start(q1) == s@.subrange(lo as int, hi as int));
    }
    let out = s.substring_char(lo, hi);
    out.to_owned()
}

} // verus!
