//! Reading the `rel="next"` target out of an RFC 8288 `Link` header.
//!
//! Both delimiters a naive split would use occur *inside* a link: a URI may
//! contain `,` and `;`, and a parameter value may quote both. TMF630 filters
//! are comma-separated value lists, so a server echoing the client's own
//! filter into the next-page link produces exactly the header naive splitting
//! mis-reads. So this follows RFC 8288 §B.2: take the URI between angle
//! brackets whole, then read parameters, honouring quoted strings.
use vstd::prelude::*;
use crate::text::{
    chars_of, eq_ic, find_char, index_of_from, is_whitespace, is_ws, lemma_index_of_from,
    range_eq_ic, string_of_range, trim, trim_range,
};

verus! {

/// Where the link value whose parameters start at `from` ends: at the first
/// comma outside a quoted string, or at the end of the header. A backslash
/// inside quotes escapes the character after it.
pub open spec fn link_value_end(h: Seq<char>, from: int, quoted: bool) -> int
    decreases h.len() - from,
{
    if from < 0 || from >= h.len() {
        h.len() as int
    } else if h[from] == '\\' && quoted {
        if from + 2 >= h.len() {
            h.len() as int
        } else {
            link_value_end(h, from + 2, quoted)
        }
    } else if h[from] == '"' {
        link_value_end(h, from + 1, !quoted)
    } else if h[from] == ',' && !quoted {
        from
    } else {
        link_value_end(h, from + 1, quoted)
    }
}

/// The end found by [`link_value_end`] lies between `from` and the end.
pub proof fn lemma_link_value_end(h: Seq<char>, from: int, quoted: bool)
    requires
        0 <= from,
    ensures
        from <= h.len() ==> from <= link_value_end(h, from, quoted),
        link_value_end(h, from, quoted) <= h.len(),
        link_value_end(h, from, quoted) < h.len() ==> h[link_value_end(h, from, quoted)] == ',',
    decreases h.len() - from,
{
    if from < h.len() {
        if h[from] == '\\' && quoted {
            if from + 2 < h.len() {
                lemma_link_value_end(h, from + 2, quoted);
            }
        } else if h[from] == '"' {
            lemma_link_value_end(h, from + 1, !quoted);
        } else if h[from] == ',' && !quoted {
        } else {
            lemma_link_value_end(h, from + 1, quoted);
        }
    }
}

/// The parameters of a link value split on `;` outside quoted strings.
pub open spec fn param_pieces(p: Seq<char>, start: int, at: int, quoted: bool) -> Seq<Seq<char>>
    decreases p.len() - at,
{
    if at < 0 || at >= p.len() {
        seq![p.subrange(start, p.len() as int)]
    } else if p[at] == '"' {
        param_pieces(p, start, at + 1, !quoted)
    } else if p[at] == ';' && !quoted {
        seq![p.subrange(start, at)] + param_pieces(p, at + 1, at + 1, quoted)
    } else {
        param_pieces(p, start, at + 1, quoted)
    }
}

/// `s` with every leading and trailing `"` removed, as
/// `str::trim_matches('"')`.
pub open spec fn strip_quotes(s: Seq<char>) -> Seq<char>
    decreases s.len(),
{
    if s.len() > 0 && s[0] == '"' {
        strip_quotes(s.drop_first())
    } else if s.len() > 0 && s.last() == '"' {
        strip_quotes(s.drop_last())
    } else {
        s
    }
}

/// Whether the whitespace-separated list `s` holds the token `next`, in any
/// ASCII case.
pub open spec fn has_next_token(s: Seq<char>) -> bool {
    exists|i: int|
        0 <= i && i + 4 <= s.len() && #[trigger] eq_ic(s.subrange(i, i + 4), "next"@) && (i == 0
            || is_ws(s[i - 1])) && (i + 4 == s.len() || is_ws(s[i + 4]))
}

/// Whether one trimmed parameter is `rel` naming `next` among its relation
/// types.
pub open spec fn names_next(param: Seq<char>) -> bool {
    match index_of_from(param, '=', 0) {
        None => false,
        Some(e) => eq_ic(trim(param.subrange(0, e)), "rel"@) && has_next_token(
            strip_quotes(trim(param.subrange(e + 1, param.len() as int))),
        ),
    }
}

/// Whether a link value's parameters declare the `next` relation.
///
/// RFC 8288 §3.3 lets `rel` carry a space-separated list of relation types,
/// so `rel="next last"` names `next` among others.
pub open spec fn params_name_next(params: Seq<char>) -> bool {
    let pieces = param_pieces(params, 0, 0, false);
    exists|i: int| 0 <= i < pieces.len() && #[trigger] names_next(trim(pieces[i]))
}

/// The first link value at or after `at` whose URI is not empty and whose
/// parameters name the `next` relation.
pub open spec fn next_link_from(h: Seq<char>, at: int) -> Option<Seq<char>>
    decreases h.len() - at,
{
    if at < 0 || at >= h.len() {
        None
    } else {
        match index_of_from(h, '<', at) {
            None => None,
            Some(open) => {
                proof {
                    lemma_index_of_from(h, '<', at);
                }
                match index_of_from(h, '>', open + 1) {
                    None => None,
                    Some(close) => {
                        proof {
                            lemma_index_of_from(h, '>', open + 1);
                            lemma_link_value_end(h, close + 1, false);
                        }
                        let end = link_value_end(h, close + 1, false);
                        let url = h.subrange(open + 1, close);
                        if url.len() > 0 && params_name_next(h.subrange(close + 1, end)) {
                            Some(url)
                        } else if end < h.len() {
                            next_link_from(h, end + 1)
                        } else {
                            None
                        }
                    },
                }
            },
        }
    }
}

/// The `rel="next"` target of a `Link` header, if it names one.
pub open spec fn next_link_spec(header: Seq<char>) -> Option<Seq<char>> {
    next_link_from(header, 0)
}

fn value_end(h: &[char], from: usize) -> (r: usize)
    requires
        from <= h@.len(),
    ensures
        r == link_value_end(h@, from as int, false),
{
    let mut quoted = false;
    let mut at = from;
    while at < h.len()
        invariant
            from <= at <= h@.len(),
            link_value_end(h@, from as int, false) == link_value_end(h@, at as int, quoted),
        decreases h@.len() - at,
    {
        let c = h[at];
        if c == '\\' && quoted {
            if h.len() - at <= 2 {
                at = h.len();
            } else {
                at = at + 2;
            }
        } else if c == '"' {
            quoted = !quoted;
            at = at + 1;
        } else if c == ',' && !quoted {
            return at;
        } else {
            at = at + 1;
        }
    }
    h.len()
}

/// Strips leading and trailing `"` from `v[lo..hi]`.
fn strip_quotes_range(v: &[char], lo: usize, hi: usize) -> (r: (usize, usize))
    requires
        lo <= hi <= v@.len(),
    ensures
        lo <= r.0 <= r.1 <= hi,
        v@.subrange(r.0 as int, r.1 as int) == strip_quotes(v@.subrange(lo as int, hi as int)),
{
    let mut a = lo;
    let mut b = hi;
    while a < b && (v[a] == '"' || v[b - 1] == '"')
        invariant
            lo <= a <= b <= hi <= v@.len(),
            strip_quotes(v@.subrange(lo as int, hi as int)) == strip_quotes(
                v@.subrange(a as int, b as int),
            ),
        decreases b - a,
    {
        assert(v@.subrange(a as int, b as int).drop_first() =~= v@.subrange(a + 1, b as int));
        assert(v@.subrange(a as int, b as int).drop_last() =~= v@.subrange(a as int, b - 1));
        if v[a] == '"' {
            a = a + 1;
        } else {
            b = b - 1;
        }
    }
    (a, b)
}

/// Whether `v[lo..hi]` holds `next` as a whitespace-separated token.
fn range_has_next_token(v: &[char], lo: usize, hi: usize) -> (r: bool)
    requires
        lo <= hi <= v@.len(),
    ensures
        r == has_next_token(v@.subrange(lo as int, hi as int)),
{
    let ghost s = v@.subrange(lo as int, hi as int);
    let next: [char; 4] = ['n', 'e', 'x', 't'];
    proof {
        reveal_strlit("next");
        assert(next@ =~= "next"@);
    }
    let mut i = lo;
    while hi - i >= 4
        invariant
            lo <= i <= hi,
            hi <= v@.len(),
            s == v@.subrange(lo as int, hi as int),
            next@ == "next"@,
            forall|j: int|
                0 <= j < i - lo ==> !(j + 4 <= s.len() && #[trigger] eq_ic(
                    s.subrange(j, j + 4),
                    "next"@,
                ) && (j == 0 || is_ws(s[j - 1])) && (j + 4 == s.len() || is_ws(s[j + 4]))),
        decreases hi - i,
    {
        let m = range_eq_ic(v, i, i + 4, &next);
        let before = i == lo || is_whitespace(v[i - 1]);
        let after = i + 4 == hi || is_whitespace(v[i + 4]);
        assert(s.subrange(i - lo, i - lo + 4) =~= v@.subrange(i as int, i + 4));
        if i > lo {
            assert(s[i - lo - 1] == v@[i - 1]);
        }
        if i + 4 < hi {
            assert(s[i - lo + 4] == v@[i + 4]);
        }
        if m && before && after {
            return true;
        }
        i = i + 1;
    }
    proof {
        if has_next_token(s) {
            let j = choose|j: int|
                0 <= j && j + 4 <= s.len() && #[trigger] eq_ic(s.subrange(j, j + 4), "next"@) && (j
                    == 0 || is_ws(s[j - 1])) && (j + 4 == s.len() || is_ws(s[j + 4]));
            assert(j < i - lo);
        }
    }
    false
}

/// Whether the parameter `v[lo..hi]`, already trimmed, is `rel` naming `next`.
fn range_names_next(v: &[char], lo: usize, hi: usize) -> (r: bool)
    requires
        lo <= hi <= v@.len(),
    ensures
        r == names_next(v@.subrange(lo as int, hi as int)),
{
    let ghost p = v@.subrange(lo as int, hi as int);
    let mut e = lo;
    while e < hi && v[e] != '='
        invariant
            lo <= e <= hi <= v@.len(),
            p == v@.subrange(lo as int, hi as int),
            index_of_from(p, '=', 0) == index_of_from(p, '=', e - lo),
        decreases hi - e,
    {
        e = e + 1;
    }
    if e == hi {
        return false;
    }
    assert(index_of_from(p, '=', 0) == Some((e - lo) as int));
    let (na, nb) = trim_range(v, lo, e);
    assert(p.subrange(0, e - lo) =~= v@.subrange(lo as int, e as int));
    let rel: [char; 3] = ['r', 'e', 'l'];
    proof {
        reveal_strlit("rel");
        assert(rel@ =~= "rel"@);
    }
    if !range_eq_ic(v, na, nb, &rel) {
        return false;
    }
    let (va, vb) = trim_range(v, e + 1, hi);
    assert(p.subrange(e - lo + 1, p.len() as int) =~= v@.subrange(e + 1, hi as int));
    let (qa, qb) = strip_quotes_range(v, va, vb);
    range_has_next_token(v, qa, qb)
}

/// Whether the parameters `v[lo..hi]` declare the `next` relation.
fn range_params_name_next(v: &[char], lo: usize, hi: usize) -> (r: bool)
    requires
        lo <= hi <= v@.len(),
    ensures
        r == params_name_next(v@.subrange(lo as int, hi as int)),
{
    let ghost p = v@.subrange(lo as int, hi as int);
    let mut quoted = false;
    let mut start = lo;
    let mut at = lo;
    let ghost mut seen: Seq<Seq<char>> = seq![];
    while at < hi
        invariant
            lo <= start <= at <= hi <= v@.len(),
            p == v@.subrange(lo as int, hi as int),
            param_pieces(p, 0, 0, false) == seen + param_pieces(
                p,
                start - lo,
                at - lo,
                quoted,
            ),
            forall|j: int| 0 <= j < seen.len() ==> !#[trigger] names_next(trim(seen[j])),
        decreases hi - at,
    {
        let c = v[at];
        if c == '"' {
            quoted = !quoted;
        } else if c == ';' && !quoted {
            let (a, b) = trim_range(v, start, at);
            assert(p.subrange(start - lo, at - lo) =~= v@.subrange(start as int, at as int));
            if range_names_next(v, a, b) {
                proof {
                    let pieces = param_pieces(p, 0, 0, false);
                    assert(pieces[seen.len() as int] == p.subrange(start - lo, at - lo));
                    assert(names_next(trim(pieces[seen.len() as int])));
                }
                return true;
            }
            proof {
                seen = seen.push(p.subrange(start - lo, at - lo));
                assert(param_pieces(p, 0, 0, false) =~= seen + param_pieces(
                    p,
                    at + 1 - lo,
                    at + 1 - lo,
                    quoted,
                ));
            }
            start = at + 1;
        }
        at = at + 1;
    }
    let (a, b) = trim_range(v, start, hi);
    assert(p.subrange(start - lo, p.len() as int) =~= v@.subrange(start as int, hi as int));
    let r = range_names_next(v, a, b);
    proof {
        let pieces = param_pieces(p, 0, 0, false);
        assert(pieces =~= seen.push(p.subrange(start - lo, p.len() as int)));
        if r {
            assert(names_next(trim(pieces[seen.len() as int])));
        } else {
            assert forall|j: int| 0 <= j < pieces.len() implies !#[trigger] names_next(
                trim(pieces[j]),
            ) by {
                if j < seen.len() {
                    assert(pieces[j] == seen[j]);
                }
            }
        }
    }
    r
}

/// Extracts the `rel="next"` target from an RFC 8288 `Link` header.
///
/// Returns `None` for a header with no `next` relation, which is what the
/// last page of a collection sends, and for a `next` link naming the empty
/// URI, which names nowhere.
pub fn next_link(header: &str) -> (r: Option<String>)
    ensures
        r matches Some(u) ==> next_link_spec(header@) == Some(u@),
        r is None ==> next_link_spec(header@) is None,
{
    let h = chars_of(header);
    let mut at: usize = 0;
    while at < h.len()
        invariant
            h@ == header@,
            at <= h@.len(),
            next_link_spec(header@) == next_link_from(h@, at as int),
        decreases h@.len() - at,
    {
        let open = match find_char(h.as_slice(), '<', at) {
            Some(o) => o,
            None => return None,
        };
        let close = match find_char(h.as_slice(), '>', open + 1) {
            Some(c) => c,
            None => return None,
        };
        proof {
            lemma_link_value_end(h@, close + 1, false);
        }
        let end = value_end(h.as_slice(), close + 1);
        if close > open + 1 && range_params_name_next(h.as_slice(), close + 1, end) {
            return Some(string_of_range(h.as_slice(), open + 1, close));
        }
        if end < h.len() {
            at = end + 1;
        } else {
            return None;
        }
    }
    None
}


/// Whether scanning `p` from `at`, inside quotes or not as `quoted` says,
/// ends outside any quoted string.
pub open spec fn ends_unquoted(p: Seq<char>, at: int, quoted: bool) -> bool
    decreases p.len() - at,
{
    if at < 0 || at >= p.len() {
        !quoted
    } else if p[at] == '"' {
        ends_unquoted(p, at + 1, !quoted)
    } else {
        ends_unquoted(p, at + 1, quoted)
    }
}

/// Splitting is unaffected by text in front of where it starts.
proof fn lemma_param_pieces_shift(x: Seq<char>, y: Seq<char>, s: int, t: int, quoted: bool)
    requires
        0 <= s <= t <= y.len(),
    ensures
        param_pieces(x + y, x.len() + s, x.len() + t, quoted) == param_pieces(y, s, t, quoted),
    decreases y.len() - t,
{
    let c = x + y;
    let n = x.len() as int;
    if t >= y.len() {
        assert(c.subrange(n + s, c.len() as int) =~= y.subrange(s, y.len() as int));
    } else {
        assert(c[n + t] == y[t]);
        if y[t] == '"' {
            lemma_param_pieces_shift(x, y, s, t + 1, !quoted);
        } else if y[t] == ';' && !quoted {
            lemma_param_pieces_shift(x, y, t + 1, t + 1, quoted);
            assert(c.subrange(n + s, n + t) =~= y.subrange(s, t));
        } else {
            lemma_param_pieces_shift(x, y, s, t + 1, quoted);
        }
    }
}

/// The pieces of `a;b`, when `a` leaves no quoted string open, are the
/// pieces of `a` followed by the pieces of `b`.
proof fn lemma_param_pieces_join(a: Seq<char>, b: Seq<char>, start: int, at: int, quoted: bool)
    requires
        0 <= start <= at <= a.len(),
        ends_unquoted(a, at, quoted),
    ensures
        param_pieces(a + seq![';'] + b, start, at, quoted) == param_pieces(a, start, at, quoted)
            + param_pieces(b, 0, 0, false),
    decreases a.len() - at,
{
    let head = a + seq![';'];
    let c = head + b;
    assert(c =~= a + seq![';'] + b);
    let n = a.len() as int;
    if at == n {
        assert(c[n] == ';');
        assert(c.subrange(start, n) =~= a.subrange(start, n));
        lemma_param_pieces_shift(head, b, 0, 0, false);
        assert(head.len() == n + 1);
    } else {
        assert(c[at] == a[at]);
        if a[at] == '"' {
            lemma_param_pieces_join(a, b, start, at + 1, !quoted);
        } else if a[at] == ';' && !quoted {
            lemma_param_pieces_join(a, b, at + 1, at + 1, quoted);
            assert(c.subrange(start, at) =~= a.subrange(start, at));
            assert(seq![a.subrange(start, at)] + (param_pieces(a, at + 1, at + 1, quoted)
                + param_pieces(b, 0, 0, false)) =~= seq![a.subrange(start, at)] + param_pieces(
                a,
                at + 1,
                at + 1,
                quoted,
            ) + param_pieces(b, 0, 0, false));
        } else {
            lemma_param_pieces_join(a, b, start, at + 1, quoted);
        }
    }
}

/// Where a `rel` naming `next` stands among a link's parameters does not
/// matter: the parameters `a;b` name the next relation exactly when `a`
/// does or `b` does, whatever other parameters (`title`, `type`, ...) stand
/// before or after it, so long as `a` leaves no quoted string open.
pub proof fn lemma_next_relation_anywhere_among_parameters(a: Seq<char>, b: Seq<char>)
    requires
        ends_unquoted(a, 0, false),
    ensures
        params_name_next(a + seq![';'] + b) == (params_name_next(a) || params_name_next(b)),
{
    lemma_param_pieces_join(a, b, 0, 0, false);
    let pa = param_pieces(a, 0, 0, false);
    let pb = param_pieces(b, 0, 0, false);
    let pc = param_pieces(a + seq![';'] + b, 0, 0, false);
    assert(pc == pa + pb);
    if params_name_next(a + seq![';'] + b) {
        let i = choose|i: int| 0 <= i < pc.len() && #[trigger] names_next(trim(pc[i]));
        if i < pa.len() {
            assert(pc[i] == pa[i]);
        } else {
            assert(pc[i] == pb[i - pa.len()]);
        }
    }
    if params_name_next(a) {
        let i = choose|i: int| 0 <= i < pa.len() && #[trigger] names_next(trim(pa[i]));
        assert(pc[i] == pa[i]);
    }
    if params_name_next(b) {
        let i = choose|i: int| 0 <= i < pb.len() && #[trigger] names_next(trim(pb[i]));
        assert(pc[pa.len() + i] == pb[i]);
    }
}

} // verus!
