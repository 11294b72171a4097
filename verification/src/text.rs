//! Character-level text utilities: scanning for a delimiter, exact string
//! comparison, and decimal `u16` parsing, each pinned to a spec-level
//! definition.

use vstd::prelude::*;

verus! {

/// Index of the first occurrence of `c` in `s` at or after `from`,
/// or `s.len()` when there is none.
pub open spec fn spec_find(s: Seq<char>, from: int, c: char) -> int
    recommends
        0 <= from <= s.len(),
    decreases s.len() - from,
{
    if from < 0 || from >= s.len() {
        s.len() as int
    } else if s[from] == c {
        from
    } else {
        spec_find(s, from + 1, c)
    }
}

pub proof fn lemma_spec_find_bounds(s: Seq<char>, from: int, c: char)
    requires
        0 <= from <= s.len(),
    ensures
        from <= spec_find(s, from, c) <= s.len(),
        spec_find(s, from, c) < s.len() ==> s[spec_find(s, from, c)] == c,
        forall|j: int| from <= j < spec_find(s, from, c) ==> s[j] != c,
    decreases s.len() - from,
{
    if from < s.len() && s[from] != c {
        lemma_spec_find_bounds(s, from + 1, c);
    }
}

/// `spec_find` lands exactly where the first match is: if nothing in
/// `[from, i)` matches and either `i` is the end or `s[i]` matches, the
/// search yields `i`.
proof fn lemma_spec_find_exact(s: Seq<char>, from: int, i: int, c: char)
    requires
        0 <= from <= i <= s.len(),
        forall|j: int| from <= j < i ==> s[j] != c,
        i == s.len() || s[i] == c,
    ensures
        spec_find(s, from, c) == i,
    decreases i - from,
{
    if from < i {
        lemma_spec_find_exact(s, from + 1, i, c);
    }
}

/// First index of `c` in `s` at or after `from`, or the length of `s`.
pub fn find_char_from(s: &str, from: usize, c: char) -> (r: usize)
    requires
        from <= s@.len(),
    ensures
        r == spec_find(s@, from as int, c),
{
    let n = s.unicode_len();
    let mut i = from;
    while i < n
        invariant
            from <= i <= n,
            n == s@.len(),
            forall|j: int| from <= j < i ==> s@[j] != c,
        decreases n - i,
    {
        if s.get_char(i) == c {
            proof {
                lemma_spec_find_exact(s@, from as int, i as int, c);
            }
            return i;
        }
        i = i + 1;
    }
    proof {
        lemma_spec_find_exact(s@, from as int, n as int, c);
    }
    n
}

/// Exact equality of two strings, compared character by character.
pub fn str_eq(a: &str, b: &str) -> (r: bool)
    ensures
        r == (a@ == b@),
{
    let na = a.unicode_len();
    let nb = b.unicode_len();
    if na != nb {
        proof {
            if a@ == b@ {
                assert(a@.len() == b@.len());
            }
        }
        return false;
    }
    let mut i: usize = 0;
    while i < na
        invariant
            0 <= i <= na,
            na == a@.len(),
            na == b@.len(),
            forall|j: int| 0 <= j < i ==> a@[j] == b@[j],
        decreases na - i,
    {
        if s_neq_at(a, b, i) {
            return false;
        }
        i = i + 1;
    }
    proof {
        assert(a@ =~= b@);
    }
    true
}

/// One character comparison of `str_eq`, with the mismatch consequence.
fn s_neq_at(a: &str, b: &str, i: usize) -> (r: bool)
    requires
        i < a@.len(),
        i < b@.len(),
    ensures
        r == (a@[i as int] != b@[i as int]),
        r ==> a@ != b@,
{
    let r = a.get_char(i) != b.get_char(i);
    proof {
        if r && a@ == b@ {
            assert(a@[i as int] == b@[i as int]);
        }
    }
    r
}

/// Strict lexicographic order on texts, by character code, shorter
/// prefixes first.
pub open spec fn lex_lt(a: Seq<char>, b: Seq<char>) -> bool
    decreases a.len(),
{
    b.len() > 0 && (a.len() == 0 || (a[0] as u32) < (b[0] as u32) || (a[0] == b[0] && lex_lt(
        a.drop_first(),
        b.drop_first(),
    )))
}

pub proof fn lemma_lex_irrefl(a: Seq<char>)
    ensures
        !lex_lt(a, a),
    decreases a.len(),
{
    if a.len() > 0 {
        lemma_lex_irrefl(a.drop_first());
    }
}

pub proof fn lemma_lex_trans(a: Seq<char>, b: Seq<char>, c: Seq<char>)
    requires
        lex_lt(a, b),
        lex_lt(b, c),
    ensures
        lex_lt(a, c),
    decreases a.len(),
{
    if a.len() > 0 && !((a[0] as u32) < (c[0] as u32)) {
        lemma_lex_trans(a.drop_first(), b.drop_first(), c.drop_first());
    }
}

/// Texts that agree before `i` and differ at `i` are ordered by that
/// character.
proof fn lemma_lex_prefix_lt(a: Seq<char>, b: Seq<char>, i: int)
    requires
        0 <= i < a.len(),
        i < b.len(),
        forall|j: int| 0 <= j < i ==> a[j] == b[j],
        (a[i] as u32) < (b[i] as u32),
    ensures
        lex_lt(a, b),
        !lex_lt(b, a),
    decreases i,
{
    if i > 0 {
        let a2 = a.drop_first();
        let b2 = b.drop_first();
        assert(a[0] == b[0]);
        assert forall|j: int| 0 <= j < i - 1 implies a2[j] == b2[j] by {
            assert(a[j + 1] == b[j + 1]);
        }
        assert(a2[i - 1] == a[i]);
        assert(b2[i - 1] == b[i]);
        lemma_lex_prefix_lt(a2, b2, i - 1);
    }
}

/// A text comes before every longer text it is a prefix of.
proof fn lemma_lex_prefix_len(a: Seq<char>, b: Seq<char>)
    requires
        a.len() < b.len(),
        forall|j: int| 0 <= j < a.len() ==> a[j] == b[j],
    ensures
        lex_lt(a, b),
        !lex_lt(b, a),
    decreases a.len(),
{
    if a.len() > 0 {
        let a2 = a.drop_first();
        let b2 = b.drop_first();
        assert(a[0] == b[0]);
        assert forall|j: int| 0 <= j < a2.len() implies a2[j] == b2[j] by {
            assert(a[j + 1] == b[j + 1]);
        }
        lemma_lex_prefix_len(a2, b2);
    }
}

/// Three-way lexicographic comparison: 0 for equal texts, -1 when `a`
/// comes first, 1 when `b` does.
pub fn lex_cmp(a: &str, b: &str) -> (r: i8)
    ensures
        -1 <= r <= 1,
        r == 0 ==> a@ == b@,
        r == -1 ==> lex_lt(a@, b@),
        r == 1 ==> lex_lt(b@, a@),
{
    let na = a.unicode_len();
    let nb = b.unicode_len();
    let mut i: usize = 0;
    while i < na && i < nb
        invariant
            0 <= i <= na,
            i <= nb,
            na == a@.len(),
            nb == b@.len(),
            forall|j: int| 0 <= j < i ==> a@[j] == b@[j],
        decreases na - i,
    {
        let ca = a.get_char(i);
        let cb = b.get_char(i);
        if (ca as u32) < (cb as u32) {
            proof {
                lemma_lex_prefix_lt(a@, b@, i as int);
            }
            return -1;
        }
        if (cb as u32) < (ca as u32) {
            proof {
                lemma_lex_prefix_lt(b@, a@, i as int);
            }
            return 1;
        }
        assert(a@[i as int] == b@[i as int]);
        i = i + 1;
    }
    if na == nb {
        proof {
            assert(a@ =~= b@);
        }
        0
    } else if na < nb {
        proof {
            lemma_lex_prefix_len(a@, b@);
        }
        -1
    } else {
        proof {
            lemma_lex_prefix_len(b@, a@);
        }
        1
    }
}

pub open spec fn is_dec_digit(c: char) -> bool {
    48 <= c as u32 <= 57
}

pub open spec fn all_dec_digits(s: Seq<char>) -> bool {
    forall|i: int| 0 <= i < s.len() ==> is_dec_digit(s[i])
}

/// Numeric value of a digit string, most significant digit first.
pub open spec fn dec_val(s: Seq<char>) -> int
    decreases s.len(),
{
    if s.len() == 0 {
        0
    } else {
        dec_val(s.drop_last()) * 10 + (s.last() as u32 - 48)
    }
}

/// The texts accepted as an unsigned 16-bit decimal, and their values: an
/// optional leading `+`, then one or more decimal digits, reading at most
/// 65535.
pub open spec fn spec_parse_u16(s: Seq<char>) -> Option<u16> {
    let d = if s.len() > 0 && s[0] == '+' {
        s.subrange(1, s.len() as int)
    } else {
        s
    };
    if d.len() > 0 && all_dec_digits(d) && dec_val(d) <= 65535 {
        Some(dec_val(d) as u16)
    } else {
        None
    }
}

/// Decimal `u16` parser: accepts exactly the texts of `spec_parse_u16`.
pub fn parse_u16_str(s: &str) -> (r: Option<u16>)
    ensures
        r == spec_parse_u16(s@),
{
    let n = s.unicode_len();
    let start: usize = if n > 0 && s.get_char(0) == '+' {
        1
    } else {
        0
    };
    let ghost d = if s@.len() > 0 && s@[0] == '+' {
        s@.subrange(1, s@.len() as int)
    } else {
        s@
    };
    if start >= n {
        assert(d.len() == 0);
        return None;
    }
    let mut acc: u32 = 0;
    let mut i = start;
    while i < n
        invariant
            start <= i <= n,
            start == 0 || start == 1,
            n == s@.len(),
            start == 1 ==> s@.len() > 0 && s@[0] == '+',
            start == 0 ==> !(s@.len() > 0 && s@[0] == '+'),
            d == s@.subrange(start as int, n as int),
            forall|j: int| 0 <= j < i - start ==> is_dec_digit(d[j]),
            dec_val(d.subrange(0, i - start)) <= 65535 ==> acc == dec_val(
                d.subrange(0, i - start),
            ),
            dec_val(d.subrange(0, i - start)) > 65535 ==> 65535 < acc <= 655359,
        decreases n - i,
    {
        let ch = s.get_char(i);
        let cv = ch as u32;
        let ghost pre = d.subrange(0, i - start);
        let ghost pre2 = d.subrange(0, i + 1 - start);
        proof {
            assert(pre2.drop_last() =~= pre);
            assert(pre2.last() == d[i - start]);
            assert(d[i - start] == s@[i as int]);
        }
        if cv < 48 || cv > 57 {
            assert(!is_dec_digit(d[i - start]));
            return None;
        }
        acc = if acc > 65535 {
            100000
        } else {
            acc * 10 + (cv - 48)
        };
        proof {
            assert(dec_val(pre2) == dec_val(pre) * 10 + (s@[i as int] as u32 - 48));
        }
        i = i + 1;
    }
    proof {
        assert(d.subrange(0, n - start) =~= d);
    }
    if acc > 65535 {
        None
    } else {
        Some(acc as u16)
    }
}

} // verus!
