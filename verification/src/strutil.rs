//! Small verified string helpers: splitting, prefix tests and joining.
//!
//! The build-support logic is mostly string surgery; these helpers give it
//! exact sequence-level contracts to build on.

use vstd::prelude::*;
use vstd::string::*;

verus! {

/// Splitting `s` at every occurrence of `sep`, with `cur` the token
/// collected so far. Mirrors a single left-to-right scan.
pub open spec fn spec_split_acc(s: Seq<char>, sep: char, cur: Seq<char>) -> Seq<Seq<char>>
    decreases s.len(),
{
    if s.len() == 0 {
        seq![cur]
    } else if s[0] == sep {
        seq![cur] + spec_split_acc(s.drop_first(), sep, Seq::empty())
    } else {
        spec_split_acc(s.drop_first(), sep, cur.push(s[0]))
    }
}

/// The pieces of `s` between occurrences of `sep`, in order. An empty
/// input gives one empty piece, and adjacent separators give empty pieces,
/// as `str::split` does.
pub open spec fn spec_split(s: Seq<char>, sep: char) -> Seq<Seq<char>> {
    spec_split_acc(s, sep, Seq::empty())
}

/// Splitting always yields at least one piece.
pub proof fn lemma_split_acc_nonempty(s: Seq<char>, sep: char, cur: Seq<char>)
    ensures
        spec_split_acc(s, sep, cur).len() >= 1,
    decreases s.len(),
{
    if s.len() > 0 {
        if s[0] == sep {
        } else {
            lemma_split_acc_nonempty(s.drop_first(), sep, cur.push(s[0]));
        }
    }
}

proof fn lemma_split_acc_join(s: Seq<char>, sep: char, cur: Seq<char>)
    ensures
        spec_join(spec_split_acc(s, sep, cur), seq![sep]) == cur + s,
    decreases s.len(),
{
    if s.len() == 0 {
        assert(spec_join(seq![cur], seq![sep]) == cur);
        assert(cur =~= cur + s);
    } else if s[0] == sep {
        lemma_split_acc_join(s.drop_first(), sep, Seq::empty());
        let tail = spec_split_acc(s.drop_first(), sep, Seq::empty());
        lemma_split_acc_nonempty(s.drop_first(), sep, Seq::empty());
        let whole = seq![cur] + tail;
        assert(whole[0] == cur);
        assert(whole.drop_first() =~= tail);
        assert(whole.len() >= 2);
        assert(spec_join(whole, seq![sep]) == cur + seq![sep] + spec_join(tail, seq![sep]));
        assert(spec_join(tail, seq![sep]) =~= s.drop_first());
        assert(cur + seq![sep] + s.drop_first() =~= cur + s);
    } else {
        lemma_split_acc_join(s.drop_first(), sep, cur.push(s[0]));
        assert(cur.push(s[0]) + s.drop_first() =~= cur + s);
    }
}

/// Splitting at a separator and joining with it again yields the
/// original string.
pub proof fn lemma_split_join_roundtrip(s: Seq<char>, sep: char)
    ensures
        spec_join(spec_split(s, sep), seq![sep]) == s,
{
    lemma_split_acc_join(s, sep, Seq::empty());
    assert(Seq::<char>::empty() + s =~= s);
}

/// `p` is a prefix of `s`.
pub open spec fn spec_starts_with(s: Seq<char>, p: Seq<char>) -> bool {
    p.len() <= s.len() && s.subrange(0, p.len() as int) == p
}

/// The elements of `parts` concatenated with `sep` between neighbours.
pub open spec fn spec_join(parts: Seq<Seq<char>>, sep: Seq<char>) -> Seq<char>
    decreases parts.len(),
{
    if parts.len() == 0 {
        Seq::empty()
    } else if parts.len() == 1 {
        parts[0]
    } else {
        parts[0] + sep + spec_join(parts.drop_first(), sep)
    }
}

proof fn lemma_join_push(parts: Seq<Seq<char>>, sep: Seq<char>, x: Seq<char>)
    ensures
        spec_join(parts.push(x), sep) == if parts.len() == 0 {
            x
        } else {
            spec_join(parts, sep) + sep + x
        },
    decreases parts.len(),
{
    if parts.len() == 0 {
        assert(parts.push(x) =~= seq![x]);
        assert(spec_join(seq![x], sep) == x);
    } else if parts.len() == 1 {
        assert(parts.push(x).drop_first() =~= seq![x]);
        assert(spec_join(parts.push(x), sep) == parts[0] + sep + spec_join(seq![x], sep));
    } else {
        lemma_join_push(parts.drop_first(), sep, x);
        assert(parts.push(x).drop_first() =~= parts.drop_first().push(x));
        assert(spec_join(parts.push(x), sep) == parts[0] + sep + spec_join(
            parts.drop_first().push(x),
            sep,
        ));
        assert(spec_join(parts, sep) + sep + x =~= parts[0] + sep + (spec_join(
            parts.drop_first(),
            sep,
        ) + sep + x));
    }
}

/// Splits `s` at every occurrence of `sep`.
pub fn split_str(s: &str, sep: char) -> (r: Vec<String>)
    ensures
        r.deep_view() == spec_split(s@, sep),
{
    let len = s.unicode_len();
    let mut parts: Vec<String> = Vec::new();
    let mut tok_start: usize = 0;
    let mut i: usize = 0;
    proof {
        assert(s@.subrange(0, len as int) =~= s@);
        assert(s@.subrange(0, 0) =~= Seq::<char>::empty());
        assert(parts.deep_view() + spec_split_acc(s@, sep, Seq::empty()) =~= spec_split(s@, sep));
    }
    while i < len
        invariant
            len == s@.len(),
            tok_start <= i <= len,
            spec_split(s@, sep) == parts.deep_view() + spec_split_acc(
                s@.subrange(i as int, len as int),
                sep,
                s@.subrange(tok_start as int, i as int),
            ),
        decreases len - i,
    {
        let ghost rest = s@.subrange(i as int, len as int);
        let ghost cur = s@.subrange(tok_start as int, i as int);
        let c = s.get_char(i);
        assert(rest[0] == s@[i as int]);
        if c == sep {
            let tok = s.substring_char(tok_start, i);
            let ghost old_parts = parts.deep_view();
            parts.push(String::from_str(tok));
            proof {
                assert(parts.deep_view() =~= old_parts.push(cur));
                assert(rest.drop_first() =~= s@.subrange(i + 1, len as int));
                assert(spec_split_acc(rest, sep, cur) == seq![cur] + spec_split_acc(
                    s@.subrange(i + 1, len as int),
                    sep,
                    Seq::empty(),
                ));
                assert(old_parts + spec_split_acc(rest, sep, cur) =~= parts.deep_view()
                    + spec_split_acc(s@.subrange(i + 1, len as int), sep, Seq::empty()));
                assert(s@.subrange(i + 1, i + 1) =~= Seq::<char>::empty());
            }
            tok_start = i + 1;
        } else {
            proof {
                assert(rest.drop_first() =~= s@.subrange(i + 1, len as int));
                assert(cur.push(rest[0]) =~= s@.subrange(tok_start as int, i + 1));
                assert(spec_split_acc(rest, sep, cur) == spec_split_acc(
                    s@.subrange(i + 1, len as int),
                    sep,
                    s@.subrange(tok_start as int, i + 1),
                ));
            }
        }
        i = i + 1;
    }
    let tok = s.substring_char(tok_start, len);
    let ghost old_parts = parts.deep_view();
    parts.push(String::from_str(tok));
    proof {
        assert(s@.subrange(len as int, len as int).len() == 0);
        assert(parts.deep_view() =~= old_parts.push(s@.subrange(tok_start as int, len as int)));
        assert(spec_split(s@, sep) =~= parts.deep_view());
    }
    parts
}

/// True when `prefix` is a prefix of `s`.
pub fn str_starts_with(s: &str, prefix: &str) -> (r: bool)
    ensures
        r == spec_starts_with(s@, prefix@),
{
    let n = prefix.unicode_len();
    if n > s.unicode_len() {
        return false;
    }
    let mut i: usize = 0;
    while i < n
        invariant
            n == prefix@.len(),
            n <= s@.len(),
            i <= n,
            forall|j: int| 0 <= j < i ==> s@[j] == prefix@[j],
        decreases n - i,
    {
        if s.get_char(i) != prefix.get_char(i) {
            assert(s@.subrange(0, n as int)[i as int] != prefix@[i as int]);
            return false;
        }
        i = i + 1;
    }
    proof {
        assert(s@.subrange(0, n as int) =~= prefix@);
    }
    true
}

/// Equality of the character sequences of two strings.
pub fn str_eq(s: &str, other: &str) -> (r: bool)
    ensures
        r == (s@ == other@),
{
    let n = s.unicode_len();
    if n != other.unicode_len() {
        return false;
    }
    let mut i: usize = 0;
    while i < n
        invariant
            n == s@.len() == other@.len(),
            i <= n,
            forall|j: int| 0 <= j < i ==> s@[j] == other@[j],
        decreases n - i,
    {
        if s.get_char(i) != other.get_char(i) {
            return false;
        }
        i = i + 1;
    }
    proof {
        assert(s@ =~= other@);
    }
    true
}

/// The characters `str::split_whitespace` treats as separators, restricted
/// to the ASCII range.
pub open spec fn spec_is_space(c: char) -> bool {
    c == ' ' || c == '\t' || c == '\n' || c == '\r' || c == '\x0b' || c == '\x0c'
}

/// The whitespace-separated tokens of `s`, with `cur` the token collected
/// so far. Empty tokens are dropped.
pub open spec fn spec_ws_tokens_acc(s: Seq<char>, cur: Seq<char>) -> Seq<Seq<char>>
    decreases s.len(),
{
    if s.len() == 0 {
        if cur.len() == 0 {
            Seq::empty()
        } else {
            seq![cur]
        }
    } else if spec_is_space(s[0]) {
        if cur.len() == 0 {
            spec_ws_tokens_acc(s.drop_first(), Seq::empty())
        } else {
            seq![cur] + spec_ws_tokens_acc(s.drop_first(), Seq::empty())
        }
    } else {
        spec_ws_tokens_acc(s.drop_first(), cur.push(s[0]))
    }
}

/// The maximal runs of non-whitespace characters of `s`, in order.
pub open spec fn spec_ws_tokens(s: Seq<char>) -> Seq<Seq<char>> {
    spec_ws_tokens_acc(s, Seq::empty())
}

fn is_space_char(c: char) -> (r: bool)
    ensures
        r == spec_is_space(c),
{
    c == ' ' || c == '\t' || c == '\n' || c == '\r' || c == '\x0b' || c == '\x0c'
}

/// Splits `s` into its whitespace-separated tokens, dropping empty ones.
pub fn split_whitespace(s: &str) -> (r: Vec<String>)
    ensures
        r.deep_view() == spec_ws_tokens(s@),
{
    let len = s.unicode_len();
    let mut parts: Vec<String> = Vec::new();
    let mut tok_start: usize = 0;
    let mut i: usize = 0;
    proof {
        assert(s@.subrange(0, len as int) =~= s@);
        assert(s@.subrange(0, 0) =~= Seq::<char>::empty());
        assert(parts.deep_view() + spec_ws_tokens_acc(s@, Seq::empty()) =~= spec_ws_tokens(s@));
    }
    while i < len
        invariant
            len == s@.len(),
            tok_start <= i <= len,
            spec_ws_tokens(s@) == parts.deep_view() + spec_ws_tokens_acc(
                s@.subrange(i as int, len as int),
                s@.subrange(tok_start as int, i as int),
            ),
        decreases len - i,
    {
        let ghost rest = s@.subrange(i as int, len as int);
        let ghost cur = s@.subrange(tok_start as int, i as int);
        let c = s.get_char(i);
        assert(rest[0] == s@[i as int]);
        if is_space_char(c) {
            proof {
                assert(rest.drop_first() =~= s@.subrange(i + 1, len as int));
                assert(s@.subrange(i + 1, i + 1) =~= Seq::<char>::empty());
            }
            if tok_start < i {
                let tok = s.substring_char(tok_start, i);
                let ghost old_parts = parts.deep_view();
                parts.push(String::from_str(tok));
                proof {
                    assert(cur.len() > 0);
                    assert(parts.deep_view() =~= old_parts.push(cur));
                    assert(spec_ws_tokens_acc(rest, cur) == seq![cur] + spec_ws_tokens_acc(
                        rest.drop_first(),
                        Seq::empty(),
                    ));
                    assert(old_parts + spec_ws_tokens_acc(rest, cur) =~= parts.deep_view()
                        + spec_ws_tokens_acc(s@.subrange(i + 1, len as int), Seq::empty()));
                }
            } else {
                proof {
                    assert(cur.len() == 0);
                    assert(spec_ws_tokens_acc(rest, cur) == spec_ws_tokens_acc(
                        rest.drop_first(),
                        Seq::empty(),
                    ));
                }
            }
            tok_start = i + 1;
        } else {
            proof {
                assert(rest.drop_first() =~= s@.subrange(i + 1, len as int));
                assert(cur.push(rest[0]) =~= s@.subrange(tok_start as int, i + 1));
                assert(spec_ws_tokens_acc(rest, cur) == spec_ws_tokens_acc(
                    s@.subrange(i + 1, len as int),
                    s@.subrange(tok_start as int, i + 1),
                ));
            }
        }
        i = i + 1;
    }
    proof {
        assert(s@.subrange(len as int, len as int).len() == 0);
    }
    if tok_start < len {
        let tok = s.substring_char(tok_start, len);
        let ghost old_parts = parts.deep_view();
        parts.push(String::from_str(tok));
        proof {
            assert(parts.deep_view() =~= old_parts.push(
                s@.subrange(tok_start as int, len as int),
            ));
            assert(spec_ws_tokens(s@) =~= parts.deep_view());
        }
    } else {
        proof {
            assert(s@.subrange(tok_start as int, len as int).len() == 0);
            assert(spec_ws_tokens(s@) =~= parts.deep_view());
        }
    }
    parts
}

/// `l` with a trailing carriage return removed, as `str::lines` does.
pub open spec fn spec_strip_cr(l: Seq<char>) -> Seq<char> {
    if l.len() > 0 && l[l.len() - 1] == '\r' {
        l.drop_last()
    } else {
        l
    }
}

/// The lines of `s`: the pieces between newline characters, each without a
/// trailing carriage return.
pub open spec fn spec_lines(s: Seq<char>) -> Seq<Seq<char>> {
    spec_split(s, '\n').map_values(|l: Seq<char>| spec_strip_cr(l))
}

/// Splits `s` into lines, removing a trailing carriage return from each.
pub fn lines(s: &str) -> (r: Vec<String>)
    ensures
        r.deep_view() == spec_lines(s@),
{
    let parts = split_str(s, '\n');
    let ghost pv = parts.deep_view();
    let mut out: Vec<String> = Vec::new();
    let mut i: usize = 0;
    proof {
        assert(out.deep_view() =~= pv.map_values(|l: Seq<char>| spec_strip_cr(l)).take(0));
    }
    while i < parts.len()
        invariant
            pv == parts.deep_view(),
            parts@.len() == pv.len(),
            i <= pv.len(),
            out.deep_view() == pv.map_values(|l: Seq<char>| spec_strip_cr(l)).take(i as int),
        decreases pv.len() - i,
    {
        let p = parts[i].as_str();
        assert(p@ == pv[i as int]);
        let n = p.unicode_len();
        let ghost old_out = out.deep_view();
        if n > 0 && p.get_char(n - 1) == '\r' {
            let stripped = p.substring_char(0, n - 1);
            out.push(String::from_str(stripped));
            proof {
                assert(p@.subrange(0, n - 1) =~= p@.drop_last());
                assert(out.deep_view() =~= old_out.push(spec_strip_cr(pv[i as int])));
            }
        } else {
            out.push(String::from_str(p));
            proof {
                assert(out.deep_view() =~= old_out.push(spec_strip_cr(pv[i as int])));
            }
        }
        proof {
            let m = pv.map_values(|l: Seq<char>| spec_strip_cr(l));
            assert(m.take(i + 1) =~= m.take(i as int).push(m[i as int]));
        }
        i = i + 1;
    }
    proof {
        let m = pv.map_values(|l: Seq<char>| spec_strip_cr(l));
        assert(m.take(pv.len() as int) =~= m);
    }
    out
}

/// The index of the first occurrence of `c` in `s`.
pub open spec fn spec_find_char(s: Seq<char>, c: char) -> Option<int>
    decreases s.len(),
{
    if s.len() == 0 {
        None
    } else if s[0] == c {
        Some(0int)
    } else {
        match spec_find_char(s.drop_first(), c) {
            Some(i) => Some(i + 1),
            None => None,
        }
    }
}

/// The first occurrence index is within bounds, holds `c`, and nothing
/// before it does; absence means no occurrence at all.
pub proof fn lemma_find_char(s: Seq<char>, c: char)
    ensures
        match spec_find_char(s, c) {
            Some(i) => 0 <= i < s.len() && s[i] == c && forall|k: int| 0 <= k < i ==> s[k] != c,
            None => forall|k: int| 0 <= k < s.len() ==> s[k] != c,
        },
    decreases s.len(),
{
    if s.len() > 0 && s[0] != c {
        lemma_find_char(s.drop_first(), c);
        let rest = s.drop_first();
        match spec_find_char(rest, c) {
            Some(i) => {
                assert(rest[i] == s[i + 1]);
                assert forall|k: int| 0 <= k < i + 1 implies s[k] != c by {
                    if k > 0 {
                        assert(rest[k - 1] == s[k]);
                    }
                }
            },
            None => {
                assert forall|k: int| 0 <= k < s.len() implies s[k] != c by {
                    if k > 0 {
                        assert(rest[k - 1] == s[k]);
                    }
                }
            },
        }
    }
}

/// Finds the first occurrence of `c` in `s`.
pub fn find_char(s: &str, c: char) -> (r: Option<usize>)
    ensures
        match r {
            Some(i) => spec_find_char(s@, c) == Some(i as int),
            None => spec_find_char(s@, c) is None,
        },
{
    let len = s.unicode_len();
    let mut i: usize = 0;
    while i < len
        invariant
            len == s@.len(),
            i <= len,
            forall|k: int| 0 <= k < i ==> s@[k] != c,
        decreases len - i,
    {
        if s.get_char(i) == c {
            proof {
                lemma_find_char(s@, c);
                match spec_find_char(s@, c) {
                    Some(w) => {
                        if w < i {
                            assert(s@[w] != c);
                        }
                        if w > i {
                            assert(s@[i as int] != c);
                        }
                        assert(w == i);
                    },
                    None => {
                        assert(s@[i as int] != c);
                    },
                }
            }
            return Some(i);
        }
        i = i + 1;
    }
    proof {
        lemma_find_char(s@, c);
        match spec_find_char(s@, c) {
            Some(w) => {
                assert(s@[w] != c);
            },
            None => {},
        }
    }
    None
}

/// Concatenates `parts` with `sep` between neighbours.
pub fn join_strings(parts: &Vec<String>, sep: &str) -> (r: String)
    ensures
        r@ == spec_join(parts.deep_view(), sep@),
{
    let mut result = String::new();
    let mut i: usize = 0;
    while i < parts.len()
        invariant
            i <= parts@.len(),
            result@ == spec_join(parts.deep_view().take(i as int), sep@),
        decreases parts@.len() - i,
    {
        if i > 0 {
            result.append(sep);
        }
        result.append(parts[i].as_str());
        proof {
            let pref = parts.deep_view().take(i as int);
            lemma_join_push(pref, sep@, parts.deep_view()[i as int]);
            assert(pref.push(parts.deep_view()[i as int]) =~= parts.deep_view().take(i + 1));
        }
        i = i + 1;
    }
    proof {
        assert(parts.deep_view().take(parts.deep_view().len() as int) =~= parts.deep_view());
    }
    result
}

} // verus!
