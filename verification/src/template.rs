//! Prompt template rendering.
//!
//! A placeholder is an opening brace, optional whitespace, a name (a
//! nonempty run of non-whitespace characters, as short as possible),
//! optional whitespace and a closing brace.  Placeholders are found left
//! to right, never overlapping.  A placeholder whose name is bound in
//! the variable mapping is replaced by the bound value; one whose name
//! is unbound is kept verbatim.  Text in which no placeholder starts is
//! copied unchanged.  Substituted values are not scanned again, and
//! rendering never fails, whatever the template and the mapping.

use vstd::prelude::*;
use vstd::string::*;

use crate::text::{chars_of, str_eq_range, string_from_chars};

verus! {

/// Whitespace, in the Unicode sense that also governs `char::is_whitespace`.
pub open spec fn is_ws(c: char) -> bool {
    ||| c == ' '
    ||| c == '\t'
    ||| c == '\n'
    ||| c == '\r'
    ||| c == '\u{b}'
    ||| c == '\u{c}'
    ||| c == '\u{85}'
    ||| c == '\u{a0}'
    ||| c == '\u{1680}'
    ||| (0x2000 <= c as u32 && c as u32 <= 0x200a)
    ||| c == '\u{2028}'
    ||| c == '\u{2029}'
    ||| c == '\u{202f}'
    ||| c == '\u{205f}'
    ||| c == '\u{3000}'
}

/// Executable test for [`is_ws`].
pub fn is_ws_char(c: char) -> (r: bool)
    ensures
        r == is_ws(c),
{
    let u: u32 = c as u32;
    u == 0x20 || u == 0x9 || u == 0xa || u == 0xd || u == 0xb || u == 0xc || u == 0x85
        || u == 0xa0 || u == 0x1680 || (0x2000 <= u && u <= 0x200a) || u == 0x2028 || u == 0x2029
        || u == 0x202f || u == 0x205f || u == 0x3000
}

/// First index at or after `i` holding a non-whitespace character, or the
/// length of `t` if there is none.
pub open spec fn skip_ws(t: Seq<char>, i: int) -> int
    decreases t.len() - i,
    when 0 <= i <= t.len()
{
    if i >= t.len() {
        i
    } else if is_ws(t[i]) {
        skip_ws(t, i + 1)
    } else {
        i
    }
}

/// First index at or after `i` holding a closing brace or whitespace, or
/// the length of `t` if there is none.  Characters before it form a name.
pub open spec fn scan_name(t: Seq<char>, i: int) -> int
    decreases t.len() - i,
    when 0 <= i <= t.len()
{
    if i >= t.len() {
        i
    } else if t[i] == '}' || is_ws(t[i]) {
        i
    } else {
        scan_name(t, i + 1)
    }
}

pub proof fn lemma_skip_ws(t: Seq<char>, i: int)
    requires
        0 <= i <= t.len(),
    ensures
        i <= skip_ws(t, i) <= t.len(),
        skip_ws(t, i) < t.len() ==> !is_ws(t[skip_ws(t, i)]),
    decreases t.len() - i,
{
    if i < t.len() && is_ws(t[i]) {
        lemma_skip_ws(t, i + 1);
    }
}

pub proof fn lemma_scan_name(t: Seq<char>, i: int)
    requires
        0 <= i <= t.len(),
    ensures
        i <= scan_name(t, i) <= t.len(),
        scan_name(t, i) < t.len() ==> (t[scan_name(t, i)] == '}' || is_ws(t[scan_name(t, i)])),
    decreases t.len() - i,
{
    if i < t.len() && !(t[i] == '}' || is_ws(t[i])) {
        lemma_scan_name(t, i + 1);
    }
}

/// A placeholder found in a template: its name occupies the character
/// range `[name_start, name_end)` and the whole placeholder the range
/// from the opening brace up to `end` (exclusive).
pub struct Found {
    pub name_start: int,
    pub name_end: int,
    pub end: int,
}

/// The placeholder starting at index `i` of `t`, if any.  A placeholder
/// starts only at an opening brace; after optional whitespace its name
/// runs up to the first closing brace or whitespace; a whitespace stop
/// must be followed by optional whitespace and a closing brace, or there
/// is no placeholder at `i` at all.
pub open spec fn match_at(t: Seq<char>, i: int) -> Option<Found> {
    if !(0 <= i < t.len()) || t[i] != '{' {
        None
    } else {
        let j = skip_ws(t, i + 1);
        if j >= t.len() {
            None
        } else {
            let k = scan_name(t, j + 1);
            if k >= t.len() {
                None
            } else if t[k] == '}' {
                Some(Found { name_start: j, name_end: k, end: k + 1 })
            } else {
                let l = skip_ws(t, k);
                if l < t.len() && t[l] == '}' {
                    Some(Found { name_start: j, name_end: k, end: l + 1 })
                } else {
                    None
                }
            }
        }
    }
}

/// The name of the placeholder starting at `i`, empty if there is none.
pub open spec fn match_name(t: Seq<char>, i: int) -> Seq<char> {
    match match_at(t, i) {
        Some(f) => t.subrange(f.name_start, f.name_end),
        None => Seq::empty(),
    }
}

pub proof fn lemma_match_at(t: Seq<char>, i: int)
    ensures
        match match_at(t, i) {
            Some(f) => i < f.name_start < f.name_end <= f.end - 1 && i + 2 < f.end <= t.len(),
            None => true,
        },
{
    if 0 <= i < t.len() && t[i] == '{' {
        lemma_skip_ws(t, i + 1);
        let j = skip_ws(t, i + 1);
        if j < t.len() {
            lemma_scan_name(t, j + 1);
            let k = scan_name(t, j + 1);
            if k < t.len() && t[k] != '}' {
                lemma_skip_ws(t, k);
            }
        }
    }
}

/// The rendering of `t` from index `i` on, under the mapping `m`.
pub open spec fn render_from(t: Seq<char>, m: Map<Seq<char>, Seq<char>>, i: int) -> Seq<char>
    decreases t.len() - i,
    when 0 <= i <= t.len()
{
    proof {
        lemma_match_at(t, i);
    }
    if i >= t.len() {
        Seq::empty()
    } else {
        match match_at(t, i) {
            Some(f) => (if m.contains_key(t.subrange(f.name_start, f.name_end)) {
                m[t.subrange(f.name_start, f.name_end)]
            } else {
                t.subrange(i, f.end)
            }) + render_from(t, m, f.end),
            None => seq![t[i]] + render_from(t, m, i + 1),
        }
    }
}

/// The rendering of a whole template under the mapping `m`.
pub open spec fn render_spec(t: Seq<char>, m: Map<Seq<char>, Seq<char>>) -> Seq<char> {
    render_from(t, m, 0)
}

/// The mapping described by a list of key/value pairs; the earliest
/// entry of a key wins, as a front-to-back lookup does.
pub open spec fn map_of_view_pairs(s: Seq<(Seq<char>, Seq<char>)>) -> Map<Seq<char>, Seq<char>>
    decreases s.len(),
{
    if s.len() == 0 {
        Map::empty()
    } else {
        map_of_view_pairs(s.drop_first()).insert(s[0].0, s[0].1)
    }
}

/// The views of a list of string pairs.
pub open spec fn pairs_view(s: Seq<(String, String)>) -> Seq<(Seq<char>, Seq<char>)> {
    s.map_values(|p: (String, String)| (p.0@, p.1@))
}

/// The mapping described by a list of string pairs.
pub open spec fn map_of_pairs(s: Seq<(String, String)>) -> Map<Seq<char>, Seq<char>> {
    map_of_view_pairs(pairs_view(s))
}

/// No opening brace occurs in `s`.
pub open spec fn brace_free(s: Seq<char>) -> bool {
    forall|p: int| 0 <= p < s.len() ==> s[p] != '{'
}

/// Every opening brace of `t` starts a placeholder whose name is bound
/// in `m`.
pub open spec fn braces_open_bound(t: Seq<char>, m: Map<Seq<char>, Seq<char>>) -> bool {
    forall|i: int|
        0 <= i < t.len() && t[i] == '{' ==> (#[trigger] match_at(t, i)) is Some
            && m.contains_key(match_name(t, i))
}

/// Every value of `m` is free of opening braces.
pub open spec fn values_brace_free(m: Map<Seq<char>, Seq<char>>) -> bool {
    forall|k: Seq<char>| #[trigger] m.contains_key(k) ==> brace_free(m[k])
}

proof fn lemma_render_from_brace_free(t: Seq<char>, m: Map<Seq<char>, Seq<char>>, i: int)
    requires
        0 <= i <= t.len(),
        braces_open_bound(t, m),
        values_brace_free(m),
    ensures
        brace_free(render_from(t, m, i)),
    decreases t.len() - i,
{
    if i < t.len() {
        lemma_match_at(t, i);
        if t[i] == '{' {
            let f = match_at(t, i)->Some_0;
            let name = t.subrange(f.name_start, f.name_end);
            assert(name == match_name(t, i));
            lemma_render_from_brace_free(t, m, f.end);
            assert(render_from(t, m, i) == m[name] + render_from(t, m, f.end));
        } else {
            lemma_render_from_brace_free(t, m, i + 1);
            assert(match_at(t, i) is None);
            assert(render_from(t, m, i) == seq![t[i]] + render_from(t, m, i + 1));
        }
    }
}

/// Law: when every opening brace of the template starts a placeholder
/// whose name is bound in the mapping, and no bound value contains an
/// opening brace, then the rendered text holds no placeholder at all —
/// in particular, none whose name is bound in the mapping survives.
pub proof fn lemma_render_resolves(t: Seq<char>, m: Map<Seq<char>, Seq<char>>)
    requires
        braces_open_bound(t, m),
        values_brace_free(m),
    ensures
        brace_free(render_spec(t, m)),
        forall|i: int| match_at(render_spec(t, m), i) is None,
        forall|i: int|
            !((#[trigger] match_at(render_spec(t, m), i)) is Some && m.contains_key(
                match_name(render_spec(t, m), i),
            )),
{
    lemma_render_from_brace_free(t, m, 0);
    assert forall|i: int| match_at(render_spec(t, m), i) is None by {
        if 0 <= i < render_spec(t, m).len() {
            assert(render_spec(t, m)[i] != '{');
        }
    }
}

proof fn lemma_render_from_plain(t: Seq<char>, m: Map<Seq<char>, Seq<char>>, i: int)
    requires
        0 <= i <= t.len(),
        brace_free(t),
    ensures
        render_from(t, m, i) == t.skip(i),
    decreases t.len() - i,
{
    if i >= t.len() {
        assert(t.skip(i) =~= Seq::<char>::empty());
    } else {
        assert(t[i] != '{');
        assert(match_at(t, i) is None);
        lemma_render_from_plain(t, m, i + 1);
        assert(seq![t[i]] + t.skip(i + 1) =~= t.skip(i));
    }
}

/// Law: text in which no placeholder can start — none of its characters
/// is an opening brace — renders to itself, whatever the mapping.
pub proof fn lemma_render_plain_text(t: Seq<char>, m: Map<Seq<char>, Seq<char>>)
    requires
        brace_free(t),
    ensures
        render_spec(t, m) == t,
{
    lemma_render_from_plain(t, m, 0);
    assert(t.skip(0) =~= t);
}

/// Executable mirror of [`skip_ws`].
fn skip_ws_exec(t: &Vec<char>, i: usize) -> (r: usize)
    requires
        i <= t@.len(),
    ensures
        r == skip_ws(t@, i as int),
        i <= r <= t@.len(),
{
    let mut j: usize = i;
    while j < t.len() && is_ws_char(t[j])
        invariant
            i <= j <= t@.len(),
            skip_ws(t@, i as int) == skip_ws(t@, j as int),
        decreases t@.len() - j,
    {
        j = j + 1;
    }
    j
}

/// Executable mirror of [`scan_name`].
fn scan_name_exec(t: &Vec<char>, i: usize) -> (r: usize)
    requires
        i <= t@.len(),
    ensures
        r == scan_name(t@, i as int),
        i <= r <= t@.len(),
{
    let mut j: usize = i;
    while j < t.len() && t[j] != '}' && !is_ws_char(t[j])
        invariant
            i <= j <= t@.len(),
            scan_name(t@, i as int) == scan_name(t@, j as int),
        decreases t@.len() - j,
    {
        j = j + 1;
    }
    j
}

/// Executable mirror of [`match_at`]: the placeholder starting at `i`,
/// as `(name_start, name_end, end)` indices into `t`.
fn try_match(t: &Vec<char>, i: usize) -> (r: Option<(usize, usize, usize)>)
    requires
        i < t@.len(),
        t@[i as int] == '{',
    ensures
        match r {
            Some(p) => {
                &&& match_at(t@, i as int) == Some(
                    Found { name_start: p.0 as int, name_end: p.1 as int, end: p.2 as int },
                )
                &&& i < p.0 < p.1 <= t@.len()
                &&& p.1 < p.2 <= t@.len()
            },
            None => match_at(t@, i as int) is None,
        },
{
    let n: usize = t.len();
    let j: usize = skip_ws_exec(t, i + 1);
    if j >= t.len() {
        return None;
    }
    let k: usize = scan_name_exec(t, j + 1);
    if k >= t.len() {
        return None;
    }
    if t[k] == '}' {
        return Some((j, k, k + 1));
    }
    let l: usize = skip_ws_exec(t, k);
    if l < t.len() && t[l] == '}' {
        return Some((j, k, l + 1));
    }
    None
}

/// Looks the character range `[from, to)` of `t` up in the pair list,
/// front to back, and hands back the first value bound to it.
fn lookup(vars: &Vec<(String, String)>, t: &Vec<char>, from: usize, to: usize) -> (r: Option<
    String,
>)
    requires
        from <= to <= t@.len(),
    ensures
        ({
            let m = map_of_pairs(vars@);
            let name = t@.subrange(from as int, to as int);
            match r {
                Some(v) => m.contains_key(name) && v@ == m[name],
                None => !m.contains_key(name),
            }
        }),
{
    let ghost vs = pairs_view(vars@);
    let ghost m = map_of_pairs(vars@);
    let ghost name = t@.subrange(from as int, to as int);
    proof {
        assert(vs.skip(0) =~= vs);
    }
    let mut i: usize = 0;
    while i < vars.len()
        invariant
            i <= vars@.len(),
            vs == pairs_view(vars@),
            vs.len() == vars@.len(),
            m == map_of_view_pairs(vs),
            name == t@.subrange(from as int, to as int),
            from <= to <= t@.len(),
            m.contains_key(name) == map_of_view_pairs(vs.skip(i as int)).contains_key(name),
            m.contains_key(name) ==> map_of_view_pairs(vs.skip(i as int))[name] == m[name],
        decreases vars@.len() - i,
    {
        proof {
            assert(vs.skip(i as int).drop_first() =~= vs.skip(i as int + 1));
            assert(vs.skip(i as int)[0] == vs[i as int]);
            assert(vs[i as int] == (vars@[i as int].0@, vars@[i as int].1@));
        }
        if str_eq_range(vars[i].0.as_str(), t, from, to) {
            return Some(vars[i].1.clone());
        }
        i = i + 1;
    }
    proof {
        assert(vs.skip(vs.len() as int) =~= Seq::<(Seq<char>, Seq<char>)>::empty());
    }
    None
}

/// Appends the character range `[from, to)` of `t` to `out`.
fn append_range(out: &mut Vec<char>, t: &Vec<char>, from: usize, to: usize)
    requires
        from <= to <= t@.len(),
    ensures
        final(out)@ == old(out)@ + t@.subrange(from as int, to as int),
{
    let mut i: usize = from;
    while i < to
        invariant
            from <= i <= to <= t@.len(),
            out@ == old(out)@ + t@.subrange(from as int, i as int),
        decreases to - i,
    {
        out.push(t[i]);
        i = i + 1;
        proof {
            assert(out@ =~= old(out)@ + t@.subrange(from as int, i as int));
        }
    }
}

/// Renders `template` under the variable pairs `vars`.  Placeholders
/// bound in `vars` are substituted; unbound ones are kept verbatim; the
/// call never fails, whatever the inputs.
pub fn render(template: &str, vars: &Vec<(String, String)>) -> (r: String)
    ensures
        r@ == render_spec(template@, map_of_pairs(vars@)),
{
    let t: Vec<char> = chars_of(template);
    let ghost m = map_of_pairs(vars@);
    let n: usize = t.len();
    let mut out: Vec<char> = Vec::new();
    let mut i: usize = 0;
    while i < n
        invariant
            t@ == template@,
            n == t@.len(),
            i <= n,
            m == map_of_pairs(vars@),
            render_spec(t@, m) == out@ + render_from(t@, m, i as int),
        decreases n - i,
    {
        let ghost i0 = i as int;
        if t[i] == '{' {
            match try_match(&t, i) {
                Some(p) => {
                    let ghost f = Found {
                        name_start: p.0 as int,
                        name_end: p.1 as int,
                        end: p.2 as int,
                    };
                    match lookup(vars, &t, p.0, p.1) {
                        Some(v) => {
                            let vc: Vec<char> = chars_of(v.as_str());
                            append_range(&mut out, &vc, 0, vc.len());
                            proof {
                                assert(vc@.subrange(0, vc@.len() as int) =~= vc@);
                            }
                        },
                        None => {
                            append_range(&mut out, &t, i, p.2);
                        },
                    }
                    i = p.2;
                    proof {
                        assert(render_from(t@, m, i0) == (if m.contains_key(
                            t@.subrange(f.name_start, f.name_end),
                        ) {
                            m[t@.subrange(f.name_start, f.name_end)]
                        } else {
                            t@.subrange(i0, f.end)
                        }) + render_from(t@, m, f.end));
                    }
                },
                None => {
                    out.push(t[i]);
                    i = i + 1;
                    proof {
                        assert(render_from(t@, m, i0) == seq![t@[i0]] + render_from(
                            t@,
                            m,
                            i0 + 1,
                        ));
                    }
                },
            }
        } else {
            out.push(t[i]);
            i = i + 1;
            proof {
                assert(render_from(t@, m, i0) == seq![t@[i0]] + render_from(t@, m, i0 + 1));
            }
        }
        proof {
            assert(render_spec(t@, m) =~= out@ + render_from(t@, m, i as int));
        }
    }
    proof {
        assert(render_from(t@, m, n as int) =~= Seq::<char>::empty());
        assert(render_spec(t@, m) =~= out@);
    }
    string_from_chars(&out)
}

} // verus!
