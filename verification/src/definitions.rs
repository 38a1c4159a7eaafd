//! Preprocessor definitions: parsing the `defines =` line of a generated
//! ninja build file, and combining definition lists.

use vstd::prelude::*;
use vstd::string::*;

use crate::strutil::{
    find_char, lines, spec_find_char, spec_lines, spec_starts_with, spec_ws_tokens,
    split_whitespace, str_eq, str_starts_with,
};

verus! {

/// A preprocessor definition.
pub type Definition = (String, Option<String>);

/// A container for a number of preprocessor definitions.
pub type Definitions = Vec<Definition>;

/// The view of a definition: name and optional value.
pub type DefinitionView = (Seq<char>, Option<Seq<char>>);

/// The first line of `ls` that begins with `p`.
pub open spec fn spec_first_with_prefix(ls: Seq<Seq<char>>, p: Seq<char>) -> Option<Seq<char>>
    decreases ls.len(),
{
    if ls.len() == 0 {
        None
    } else if spec_starts_with(ls[0], p) {
        Some(ls[0])
    } else {
        spec_first_with_prefix(ls.drop_first(), p)
    }
}

/// What stands after `defines = ` on the first line of `s` that begins
/// with that prefix, if there is one.
pub open spec fn spec_defines_tail(s: Seq<char>) -> Option<Seq<char>> {
    match spec_first_with_prefix(spec_lines(s), "defines = "@) {
        Some(l) => Some(l.subrange("defines = "@.len() as int, l.len() as int)),
        None => None,
    }
}

/// The whitespace-separated tokens of the `defines = ` line of `s`.
pub open spec fn spec_ninja_tokens(s: Seq<char>) -> Seq<Seq<char>> {
    match spec_defines_tail(s) {
        Some(t) => spec_ws_tokens(t),
        None => Seq::empty(),
    }
}

/// A definition read from the text `d` (a token with its `-D` prefix
/// already removed): the part before the first `=` as the name and what
/// follows it as the value, or all of `d` as a valueless name.
pub open spec fn spec_definition_of(d: Seq<char>) -> DefinitionView {
    match spec_find_char(d, '=') {
        Some(i) => (d.take(i), Some(d.subrange(i + 1, d.len() as int))),
        None => (d, None),
    }
}

/// The definitions carried by the `defines = ` line of the ninja file
/// text `s`: each token, stripped of its `-D` prefix, split at its first
/// `=` into name and optional value.
pub open spec fn spec_ninja_definitions(s: Seq<char>) -> Seq<DefinitionView> {
    spec_ninja_tokens(s).map_values(
        |t: Seq<char>| spec_definition_of(t.subrange("-D"@.len() as int, t.len() as int)),
    )
}

/// Parses the `defines = ` line of a ninja build file into preprocessor
/// definitions. The file must hold such a line, and every token on it
/// must begin with `-D`.
pub fn from_ninja(ninja_file: &str) -> (r: Definitions)
    requires
        spec_defines_tail(ninja_file@) is Some,
        forall|j: int|
            0 <= j < spec_ninja_tokens(ninja_file@).len() ==> spec_starts_with(
                #[trigger] spec_ninja_tokens(ninja_file@)[j],
                "-D"@,
            ),
    ensures
        r.deep_view() == spec_ninja_definitions(ninja_file@),
{
    let ghost sv = ninja_file@;
    let ls = lines(ninja_file);
    let ghost lsv = ls.deep_view();
    let ghost p = "defines = "@;
    let mut idx: usize = 0;
    let mut tail_str: String = String::new();
    let mut searching = true;
    proof {
        assert(lsv.skip(0) =~= lsv);
    }
    while searching
        invariant
            lsv == ls.deep_view(),
            lsv == spec_lines(sv),
            ls@.len() == lsv.len(),
            idx <= lsv.len(),
            p == "defines = "@,
            spec_defines_tail(sv) is Some,
            searching ==> spec_first_with_prefix(lsv.skip(idx as int), p)
                == spec_first_with_prefix(lsv, p),
            !searching ==> tail_str@ == spec_defines_tail(sv)->Some_0,
        decreases lsv.len() - idx, (if searching { 1int } else { 0int }),
    {
        proof {
            if idx == lsv.len() {
                assert(lsv.skip(idx as int) =~= Seq::<Seq<char>>::empty());
                assert(spec_first_with_prefix(Seq::<Seq<char>>::empty(), p) is None);
                assert(false);
            }
        }
        let ghost restl = lsv.skip(idx as int);
        proof {
            assert(restl[0] == lsv[idx as int]);
            assert(restl.drop_first() =~= lsv.skip(idx + 1));
        }
        let line = ls[idx].as_str();
        if str_starts_with(line, "defines = ") {
            let plen = "defines = ".unicode_len();
            let nn = line.unicode_len();
            tail_str = String::from_str(line.substring_char(plen, nn));
            searching = false;
            proof {
                assert(spec_first_with_prefix(restl, p) == Some(restl[0]));
            }
        } else {
            idx = idx + 1;
        }
    }
    let tokens = split_whitespace(tail_str.as_str());
    let ghost toksv = tokens.deep_view();
    proof {
        assert(toksv == spec_ninja_tokens(sv));
    }
    let ghost f = |t: Seq<char>| spec_definition_of(t.subrange("-D"@.len() as int, t.len() as int));
    let mut out: Definitions = Vec::new();
    let mut j: usize = 0;
    proof {
        assert(out.deep_view() =~= toksv.map_values(f).take(0));
    }
    while j < tokens.len()
        invariant
            toksv == tokens.deep_view(),
            toksv == spec_ninja_tokens(sv),
            tokens@.len() == toksv.len(),
            j <= toksv.len(),
            f == (|t: Seq<char>|
                spec_definition_of(t.subrange("-D"@.len() as int, t.len() as int))),
            forall|k: int|
                0 <= k < toksv.len() ==> spec_starts_with(#[trigger] toksv[k], "-D"@),
            out.deep_view() == toksv.map_values(f).take(j as int),
        decreases toksv.len() - j,
    {
        let t = tokens[j].as_str();
        assert(t@ == toksv[j as int]);
        assert(spec_starts_with(t@, "-D"@));
        let dp = "-D".unicode_len();
        let dlen = t.unicode_len();
        let d = t.substring_char(dp, dlen);
        let ghost dv2 = d@;
        let ghost old_out = out.deep_view();
        match find_char(d, '=') {
            Some(e) => {
                proof {
                    crate::strutil::lemma_find_char(dv2, '=');
                }
                let nm = String::from_str(d.substring_char(0, e));
                let vl = String::from_str(d.substring_char(e + 1, d.unicode_len()));
                out.push((nm, Some(vl)));
                proof {
                    assert(dv2.subrange(0, e as int) =~= dv2.take(e as int));
                    assert(out.deep_view() =~= old_out.push(spec_definition_of(dv2)));
                }
            },
            None => {
                out.push((String::from_str(d), None));
                proof {
                    assert(out.deep_view() =~= old_out.push(spec_definition_of(dv2)));
                }
            },
        }
        proof {
            let m = toksv.map_values(f);
            assert(m[j as int] == f(toksv[j as int]));
            assert(m.take(j + 1) =~= m.take(j as int).push(m[j as int]));
        }
        j = j + 1;
    }
    proof {
        let m = toksv.map_values(f);
        assert(m.take(toksv.len() as int) =~= m);
        assert(out.deep_view() == spec_ninja_definitions(sv));
    }
    out
}

/// Compressing `s` while the names in `seen` are already taken: the
/// elements of `s`, in order, whose name neither lies in `seen` nor
/// appeared earlier in `s`.
pub open spec fn spec_compress_acc(s: Seq<DefinitionView>, seen: Set<Seq<char>>) -> Seq<
    DefinitionView,
>
    decreases s.len(),
{
    if s.len() == 0 {
        Seq::empty()
    } else if seen.contains(s[0].0) {
        spec_compress_acc(s.drop_first(), seen)
    } else {
        seq![s[0]] + spec_compress_acc(s.drop_first(), seen.insert(s[0].0))
    }
}

/// The first definition of each name, in order of first appearance;
/// later definitions of an already-seen name are dropped.
pub open spec fn spec_compress(s: Seq<DefinitionView>) -> Seq<DefinitionView> {
    spec_compress_acc(s, Set::empty())
}

proof fn lemma_compress_acc_idempotent(s: Seq<DefinitionView>, seen: Set<Seq<char>>)
    ensures
        spec_compress_acc(spec_compress_acc(s, seen), seen) == spec_compress_acc(s, seen),
    decreases s.len(),
{
    if s.len() == 0 {
    } else if seen.contains(s[0].0) {
        lemma_compress_acc_idempotent(s.drop_first(), seen);
    } else {
        let k = s[0].0;
        lemma_compress_acc_idempotent(s.drop_first(), seen.insert(k));
        let inner = spec_compress_acc(s.drop_first(), seen.insert(k));
        let whole = seq![s[0]] + inner;
        assert(whole[0] == s[0]);
        assert(whole.drop_first() =~= inner);
        assert(spec_compress_acc(whole, seen) == seq![s[0]] + spec_compress_acc(
            inner,
            seen.insert(k),
        ));
    }
}

/// Compressing a definition list a second time changes nothing.
pub proof fn lemma_compress_idempotent(s: Seq<DefinitionView>)
    ensures
        spec_compress(spec_compress(s)) == spec_compress(s),
{
    lemma_compress_acc_idempotent(s, Set::empty());
}

/// True when `keys` holds a string whose characters equal `key`.
fn contains_key(keys: &Vec<String>, key: &String) -> (r: bool)
    ensures
        r == keys.deep_view().contains(key@),
{
    let mut i: usize = 0;
    while i < keys.len()
        invariant
            i <= keys@.len(),
            forall|j: int| 0 <= j < i ==> keys.deep_view()[j] != key@,
        decreases keys@.len() - i,
    {
        if str_eq(keys[i].as_str(), key.as_str()) {
            assert(keys.deep_view()[i as int] == key@);
            return true;
        }
        i = i + 1;
    }
    false
}

/// Keeps the first definition of each name and drops the later ones,
/// preserving order.
pub fn compress(definitions: Definitions) -> (r: Definitions)
    ensures
        r.deep_view() == spec_compress(definitions.deep_view()),
{
    let ghost dv = definitions.deep_view();
    let mut out: Definitions = Vec::new();
    let mut seen: Vec<String> = Vec::new();
    let ghost mut seen_set: Set<Seq<char>> = Set::empty();
    let mut i: usize = 0;
    proof {
        assert(dv.skip(0) =~= dv);
        assert(out.deep_view() + spec_compress_acc(dv, seen_set) =~= spec_compress(dv));
    }
    while i < definitions.len()
        invariant
            dv == definitions.deep_view(),
            i <= dv.len(),
            dv.len() == definitions@.len(),
            forall|k: Seq<char>| seen_set.contains(k) <==> seen.deep_view().contains(k),
            spec_compress(dv) == out.deep_view() + spec_compress_acc(dv.skip(i as int), seen_set),
        decreases dv.len() - i,
    {
        let ghost rest = dv.skip(i as int);
        proof {
            assert(rest[0] == dv[i as int]);
            assert(rest.drop_first() =~= dv.skip(i + 1));
        }
        let name = definitions[i].0.clone();
        assert(name@ == dv[i as int].0);
        let dup = contains_key(&seen, &name);
        if !dup {
            let value = match &definitions[i].1 {
                Some(v) => Some(v.clone()),
                None => None,
            };
            assert(value.deep_view() == dv[i as int].1);
            let ghost old_out = out.deep_view();
            let ghost old_seen = seen.deep_view();
            out.push((name, value));
            seen.push(definitions[i].0.clone());
            proof {
                assert(out.deep_view() =~= old_out.push(dv[i as int]));
                assert(seen.deep_view() =~= old_seen.push(dv[i as int].0));
                assert(spec_compress_acc(rest, seen_set) == seq![rest[0]] + spec_compress_acc(
                    rest.drop_first(),
                    seen_set.insert(rest[0].0),
                ));
                assert(old_out + spec_compress_acc(rest, seen_set) =~= out.deep_view()
                    + spec_compress_acc(dv.skip(i + 1), seen_set.insert(dv[i as int].0)));
                seen_set = seen_set.insert(dv[i as int].0);
                assert forall|k: Seq<char>|
                    seen_set.contains(k) <==> seen.deep_view().contains(k) by {
                    if k == dv[i as int].0 {
                        assert(seen.deep_view()[seen.deep_view().len() - 1] == dv[i as int].0);
                    } else {
                        assert(seen.deep_view().contains(k) == old_seen.contains(k)) by {
                            if old_seen.contains(k) {
                                let w = choose|w: int| 0 <= w < old_seen.len() && old_seen[w] == k;
                                assert(seen.deep_view()[w] == k);
                            } else {
                                if seen.deep_view().contains(k) {
                                    let w = choose|w: int|
                                        0 <= w < seen.deep_view().len() && seen.deep_view()[w] == k;
                                    assert(w < old_seen.len());
                                    assert(old_seen[w] == k);
                                }
                            }
                        }
                    }
                }
            }
        } else {
            proof {
                assert(seen_set.contains(rest[0].0));
                assert(spec_compress_acc(rest, seen_set) == spec_compress_acc(
                    rest.drop_first(),
                    seen_set,
                ));
            }
        }
        i = i + 1;
    }
    proof {
        assert(dv.skip(dv.len() as int) =~= Seq::<DefinitionView>::empty());
        assert(out.deep_view() =~= spec_compress(dv));
    }
    out
}

/// The compiler argument announcing a definition: `-Dname`, or
/// `-Dname=value` when the definition has a value.
pub open spec fn spec_clang_define_arg(d: DefinitionView) -> Seq<char> {
    match d.1 {
        Some(v) => "-D"@ + d.0 + "="@ + v,
        None => "-D"@ + d.0,
    }
}

/// Renders each definition as the compiler argument announcing it, in
/// order.
pub fn clang_define_args(defs: &Definitions) -> (r: Vec<String>)
    ensures
        r.deep_view() == defs.deep_view().map_values(
            |d: DefinitionView| spec_clang_define_arg(d),
        ),
{
    let ghost m = defs.deep_view().map_values(|d: DefinitionView| spec_clang_define_arg(d));
    let mut out: Vec<String> = Vec::new();
    let mut i: usize = 0;
    proof {
        assert(out.deep_view() =~= m.take(0));
    }
    while i < defs.len()
        invariant
            i <= defs@.len(),
            defs@.len() == defs.deep_view().len(),
            m == defs.deep_view().map_values(|d: DefinitionView| spec_clang_define_arg(d)),
            out.deep_view() == m.take(i as int),
        decreases defs@.len() - i,
    {
        let mut s = String::from_str("-D");
        s.append(defs[i].0.as_str());
        match &defs[i].1 {
            Some(v) => {
                s.append("=");
                s.append(v.as_str());
            },
            None => {},
        }
        let ghost g0 = out.deep_view();
        out.push(s);
        proof {
            assert(out.deep_view() =~= g0.push(m[i as int]));
            assert(m.take(i + 1) =~= m.take(i as int).push(m[i as int]));
        }
        i = i + 1;
    }
    proof {
        assert(m.take(m.len() as int) =~= m);
    }
    out
}

/// Rendering a definition as a compiler argument and reading the argument
/// back as a token of a `defines = ` line yields the definition again,
/// provided the definition's name holds no `=`.
pub proof fn lemma_define_arg_parses_back(d: DefinitionView)
    requires
        spec_find_char(d.0, '=') is None,
    ensures
        spec_definition_of(
            spec_clang_define_arg(d).subrange(
                "-D"@.len() as int,
                spec_clang_define_arg(d).len() as int,
            ),
        ) == d,
{
    reveal_strlit("=");
    crate::strutil::lemma_find_char(d.0, '=');
    let arg = spec_clang_define_arg(d);
    match d.1 {
        None => {
            let tail = arg.subrange("-D"@.len() as int, arg.len() as int);
            assert(tail =~= d.0);
            assert(spec_definition_of(d.0) == (d.0, None::<Seq<char>>));
        },
        Some(v) => {
            let tail = arg.subrange("-D"@.len() as int, arg.len() as int);
            assert(tail =~= d.0 + "="@ + v);
            let n = d.0.len() as int;
            assert("="@[0] == '=');
            assert(tail[n] == '=');
            assert(forall|k: int| 0 <= k < n ==> tail[k] == d.0[k]);
            crate::strutil::lemma_find_char(tail, '=');
            match spec_find_char(tail, '=') {
                None => {
                    assert(tail[n] != '=');
                },
                Some(i) => {
                    if i < n {
                        assert(tail[i] == d.0[i]);
                        assert(d.0[i] != '=');
                    }
                    if i > n {
                        assert(tail[n] != '=');
                    }
                    assert(i == n);
                    assert(tail.take(n) =~= d.0);
                    assert(tail.subrange(n + 1, tail.len() as int) =~= v);
                },
            }
        },
    }
}

/// Copies a definition list.
pub fn clone_definitions(defs: &Definitions) -> (r: Definitions)
    ensures
        r.deep_view() == defs.deep_view(),
{
    let mut out: Definitions = Vec::new();
    let mut i: usize = 0;
    while i < defs.len()
        invariant
            i <= defs@.len(),
            defs@.len() == defs.deep_view().len(),
            out.deep_view() == defs.deep_view().take(i as int),
        decreases defs@.len() - i,
    {
        let name = defs[i].0.clone();
        let value = match &defs[i].1 {
            Some(v) => Some(v.clone()),
            None => None,
        };
        let ghost old_out = out.deep_view();
        out.push((name, value));
        proof {
            assert(out.deep_view() =~= old_out.push(defs.deep_view()[i as int]));
            assert(defs.deep_view().take(i + 1) =~= defs.deep_view().take(i as int).push(
                defs.deep_view()[i as int],
            ));
        }
        i = i + 1;
    }
    proof {
        assert(defs.deep_view().take(defs.deep_view().len() as int) =~= defs.deep_view());
    }
    out
}

/// Concatenates two definition lists and keeps the first definition of
/// each name.
pub fn combine(a: Definitions, b: Definitions) -> (r: Definitions)
    ensures
        r.deep_view() == spec_compress(a.deep_view() + b.deep_view()),
{
    let ghost av = a.deep_view();
    let ghost bv = b.deep_view();
    let mut all = a;
    let mut rest = b;
    all.append(&mut rest);
    proof {
        assert(all.deep_view() =~= av + bv);
    }
    compress(all)
}

} // verus!
