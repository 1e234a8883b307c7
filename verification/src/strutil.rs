//! The token grammar's string primitives: locating the first `=` of a
//! `name=value` token, the name and value fields it induces, and plain
//! character-wise string equality.

use vstd::prelude::*;
use vstd::string::StrSliceExecFns;

verus! {

/// Index of the first `=` in `s`, or `s.len()` when there is none.
pub open spec fn first_eq_idx(s: Seq<char>) -> int
    decreases s.len(),
{
    if s.len() == 0 {
        0
    } else if s[0] == '=' {
        0
    } else {
        1 + first_eq_idx(s.drop_first())
    }
}

/// Whether the token has any `=` at all, i.e. at least two `=`-separated
/// fields.
pub open spec fn has_eq(s: Seq<char>) -> bool {
    s.contains('=')
}

/// The name field of a `name=value` token: everything before the first `=`.
pub open spec fn name_of(s: Seq<char>) -> Seq<char> {
    s.take(first_eq_idx(s))
}

/// The value field of a `name=value` token: everything after the first `=`,
/// embedded `=` characters included. Meaningful only when `has_eq(s)`.
pub open spec fn value_of(s: Seq<char>) -> Seq<char> {
    s.subrange(first_eq_idx(s) + 1, s.len() as int)
}

/// Whether the token consists of exactly two `=`-separated fields, i.e. has
/// exactly one `=`.
pub open spec fn exactly_one_eq(s: Seq<char>) -> bool {
    has_eq(s) && !value_of(s).contains('=')
}

/// The first-`=` index is within bounds, points at an `=` if one exists, and
/// nothing before it is an `=`.
pub proof fn lemma_first_eq(s: Seq<char>)
    ensures
        0 <= first_eq_idx(s) <= s.len(),
        has_eq(s) <==> first_eq_idx(s) < s.len(),
        first_eq_idx(s) < s.len() ==> s[first_eq_idx(s)] == '=',
        forall|j: int| 0 <= j < first_eq_idx(s) ==> s[j] != '=',
    decreases s.len(),
{
    if s.len() == 0 {
        assert(!has_eq(s));
    } else if s[0] == '=' {
        assert(has_eq(s));
    } else {
        let d = s.drop_first();
        lemma_first_eq(d);
        assert forall|j: int| 0 <= j < first_eq_idx(s) implies s[j] != '=' by {
            if j > 0 {
                assert(s[j] == d[j - 1]);
            }
        }
        if has_eq(s) {
            let w = choose|i: int| 0 <= i < s.len() && s[i] == '=';
            assert(d[w - 1] == '=');
            assert(has_eq(d));
        }
        if has_eq(d) {
            let w = choose|i: int| 0 <= i < d.len() && d[i] == '=';
            assert(s[w + 1] == '=');
            assert(has_eq(s));
        }
    }
}

/// An `=` at `i` with none before it is the first one.
pub proof fn lemma_first_eq_is(s: Seq<char>, i: int)
    requires
        0 <= i < s.len(),
        s[i] == '=',
        forall|j: int| 0 <= j < i ==> s[j] != '=',
    ensures
        first_eq_idx(s) == i,
        has_eq(s),
{
    lemma_first_eq(s);
    assert(has_eq(s));
    let f = first_eq_idx(s);
    if f < i {
        assert(s[f] != '=');
    }
    if f > i {
        assert(s[i] != '=');
    }
}

/// Position of the first `=` in `s`, if any.
pub fn find_eq(s: &str) -> (r: Option<usize>)
    ensures
        match r {
            Some(i) => has_eq(s@) && i == first_eq_idx(s@) && i < s@.len(),
            None => !has_eq(s@),
        },
{
    let n = s.unicode_len();
    let mut i: usize = 0;
    while i < n
        invariant
            n == s@.len(),
            i <= n,
            forall|j: int| 0 <= j < i ==> s@[j] != '=',
        decreases n - i,
    {
        if s.get_char(i) == '=' {
            proof {
                lemma_first_eq_is(s@, i as int);
            }
            return Some(i);
        }
        i += 1;
    }
    proof {
        lemma_first_eq(s@);
    }
    None
}

/// Whether `s` holds an `=` at or after position `from`.
pub fn contains_eq_from(s: &str, from: usize) -> (r: bool)
    requires
        from <= s@.len(),
    ensures
        r == s@.subrange(from as int, s@.len() as int).contains('='),
{
    let n = s.unicode_len();
    let ghost tail = s@.subrange(from as int, s@.len() as int);
    let mut i: usize = from;
    while i < n
        invariant
            n == s@.len(),
            from <= i <= n,
            tail == s@.subrange(from as int, s@.len() as int),
            forall|j: int| 0 <= j < i - from ==> tail[j] != '=',
        decreases n - i,
    {
        if s.get_char(i) == '=' {
            proof {
                assert(tail[i - from] == '=');
            }
            return true;
        }
        i += 1;
    }
    proof {
        assert forall|j: int| 0 <= j < tail.len() implies tail[j] != '=' by {}
    }
    false
}

/// Whether `c` is one of the five ASCII whitespace characters a command line
/// is split on.
pub open spec fn is_ascii_ws(c: char) -> bool {
    c == ' ' || c == '\t' || c == '\n' || c == '\u{0c}' || c == '\r'
}

/// Tokenization of `rest` with `cur` as the partially accumulated current
/// token: whitespace finishes the current token (if non-empty), any other
/// character extends it.
pub open spec fn tok_rec(rest: Seq<char>, cur: Seq<char>) -> Seq<Seq<char>>
    decreases rest.len(),
{
    if rest.len() == 0 {
        if cur.len() == 0 {
            Seq::empty()
        } else {
            seq![cur]
        }
    } else if is_ascii_ws(rest[0]) {
        if cur.len() == 0 {
            tok_rec(rest.drop_first(), Seq::empty())
        } else {
            seq![cur] + tok_rec(rest.drop_first(), Seq::empty())
        }
    } else {
        tok_rec(rest.drop_first(), cur.push(rest[0]))
    }
}

/// The whitespace-separated tokens of a command line, in order.
pub open spec fn tokens_of(s: Seq<char>) -> Seq<Seq<char>> {
    tok_rec(s, Seq::empty())
}

/// Whether `c` is one of the five ASCII whitespace characters.
pub fn is_ws_char(c: char) -> (r: bool)
    ensures
        r == is_ascii_ws(c),
{
    c == ' ' || c == '\t' || c == '\n' || c == '\u{0c}' || c == '\r'
}

/// Split a command line into its whitespace-separated tokens.
pub fn tokenize(s: &str) -> (r: Vec<String>)
    ensures
        r.deep_view() == tokens_of(s@),
{
    let n = s.unicode_len();
    let mut result: Vec<String> = Vec::new();
    let mut start: usize = 0;
    let mut i: usize = 0;
    proof {
        assert(result.deep_view() =~= Seq::<Seq<char>>::empty());
        assert(s@.subrange(0, n as int) =~= s@);
        assert(s@.subrange(0, 0) =~= Seq::<char>::empty());
    }
    while i < n
        invariant
            n == s@.len(),
            start <= i <= n,
            tokens_of(s@) == result.deep_view() + tok_rec(
                s@.subrange(i as int, n as int),
                s@.subrange(start as int, i as int),
            ),
        decreases n - i,
    {
        let ghost rest = s@.subrange(i as int, n as int);
        let ghost cur = s@.subrange(start as int, i as int);
        let c = s.get_char(i);
        proof {
            assert(rest[0] == s@[i as int]);
            assert(rest.drop_first() =~= s@.subrange(i as int + 1, n as int));
        }
        if is_ws_char(c) {
            if start < i {
                let tok = s.substring_char(start, i);
                let ghost prev = result.deep_view();
                result.push(String::from_str(tok));
                proof {
                    assert(result.deep_view() =~= prev.push(cur));
                    assert(prev.push(cur) =~= prev + seq![cur]);
                    assert((prev + seq![cur]) + tok_rec(rest.drop_first(), Seq::empty()) =~= prev
                        + (seq![cur] + tok_rec(rest.drop_first(), Seq::empty())));
                }
            }
            i += 1;
            start = i;
            proof {
                assert(s@.subrange(start as int, i as int) =~= Seq::<char>::empty());
            }
        } else {
            proof {
                assert(cur.push(s@[i as int]) =~= s@.subrange(start as int, i as int + 1));
            }
            i += 1;
        }
    }
    proof {
        assert(s@.subrange(n as int, n as int).len() == 0);
    }
    if start < n {
        let tok = s.substring_char(start, n);
        let ghost prev = result.deep_view();
        result.push(String::from_str(tok));
        proof {
            let cur = s@.subrange(start as int, n as int);
            assert(result.deep_view() =~= prev.push(cur));
            assert(prev.push(cur) =~= prev + seq![cur]);
        }
    } else {
        proof {
            assert(result.deep_view() + Seq::<Seq<char>>::empty() =~= result.deep_view());
        }
    }
    result
}

/// Character-wise string equality, equivalent to equality of the views.
pub fn str_eq(a: &str, b: &str) -> (r: bool)
    ensures
        r == (a@ == b@),
{
    let an = a.unicode_len();
    let bn = b.unicode_len();
    if an != bn {
        return false;
    }
    let mut i: usize = 0;
    while i < an
        invariant
            an == a@.len(),
            bn == b@.len(),
            an == bn,
            i <= an,
            forall|j: int| 0 <= j < i ==> a@[j] == b@[j],
        decreases an - i,
    {
        if a.get_char(i) != b.get_char(i) {
            return false;
        }
        i += 1;
    }
    proof {
        assert(a@ =~= b@);
    }
    true
}

/// The ASCII-lowercased code point of `c`: the letters `A`–`Z` fold onto
/// `a`–`z`, every other character stays itself.
pub open spec fn lower_u32(c: char) -> u32 {
    if 65 <= c as u32 <= 90 {
        (c as u32 + 32) as u32
    } else {
        c as u32
    }
}

/// String equality up to ASCII case folding.
pub open spec fn seq_eq_ci(a: Seq<char>, b: Seq<char>) -> bool {
    a.len() == b.len() && (forall|i: int|
        0 <= i < a.len() ==> lower_u32(a[i]) == lower_u32(b[i]))
}

/// Character-wise string comparison up to ASCII case folding.
pub fn str_eq_ci(a: &str, b: &str) -> (r: bool)
    ensures
        r == seq_eq_ci(a@, b@),
{
    let an = a.unicode_len();
    let bn = b.unicode_len();
    if an != bn {
        return false;
    }
    let mut i: usize = 0;
    while i < an
        invariant
            an == a@.len(),
            bn == b@.len(),
            an == bn,
            i <= an,
            forall|j: int| 0 <= j < i ==> lower_u32(a@[j]) == lower_u32(b@[j]),
        decreases an - i,
    {
        let ua = a.get_char(i) as u32;
        let ub = b.get_char(i) as u32;
        let la: u32 = if 65 <= ua && ua <= 90 {
            ua + 32
        } else {
            ua
        };
        let lb: u32 = if 65 <= ub && ub <= 90 {
            ub + 32
        } else {
            ub
        };
        if la != lb {
            return false;
        }
        i += 1;
    }
    true
}

} // verus!
