//! `${name}` placeholders in launch arguments.
use vstd::prelude::*;

verus! {

/// Placeholder names and their values, as character sequences.
pub open spec fn context_view(ctx: Seq<(String, String)>) -> Seq<(Seq<char>, Seq<char>)> {
    ctx.map_values(|p: (String, String)| (p.0@, p.1@))
}

/// The value of the first entry named `name`.
pub open spec fn lookup(ctx: Seq<(Seq<char>, Seq<char>)>, name: Seq<char>) -> Option<Seq<char>>
    decreases ctx.len(),
{
    if ctx.len() == 0 {
        None
    } else if ctx[0].0 == name {
        Some(ctx[0].1)
    } else {
        lookup(ctx.drop_first(), name)
    }
}

/// The first position at or after `k` that holds `}`.
pub open spec fn close_from(s: Seq<char>, k: int) -> Option<int>
    decreases s.len() - k,
{
    if k < 0 || k >= s.len() {
        None
    } else if s[k] == '}' {
        Some(k)
    } else {
        close_from(s, k + 1)
    }
}

/// A placeholder opens at `i`.
pub open spec fn opens_at(s: Seq<char>, i: int) -> bool {
    0 <= i && i + 1 < s.len() && s[i] == '$' && s[i + 1] == '{'
}

/// `s` from position `i` on, with each `${name}` whose name is in `ctx`
/// replaced by its value. A placeholder with an unknown name is kept as it
/// is, and so is a `${` that no `}` closes. Values are not scanned again.
pub open spec fn substituted_from(s: Seq<char>, i: int, ctx: Seq<(Seq<char>, Seq<char>)>) -> Seq<char>
    decreases s.len() - i,
{
    if i < 0 || i >= s.len() {
        Seq::empty()
    } else if opens_at(s, i) && close_from(s, i + 2) is Some && i + 2 <= close_from(s, i + 2)->0
        < s.len() {
        let j = close_from(s, i + 2)->0;
        match lookup(ctx, s.subrange(i + 2, j)) {
            Some(v) => v + substituted_from(s, j + 1, ctx),
            None => s.subrange(i, j + 1) + substituted_from(s, j + 1, ctx),
        }
    } else {
        seq![s[i]] + substituted_from(s, i + 1, ctx)
    }
}

pub open spec fn substituted(s: Seq<char>, ctx: Seq<(Seq<char>, Seq<char>)>) -> Seq<char> {
    substituted_from(s, 0, ctx)
}

/// The value of placeholder `name` in `ctx`, if it is there.
pub fn lookup_value<'a>(ctx: &'a Vec<(String, String)>, name: &str) -> (r: Option<&'a String>)
    ensures
        r is Some <==> lookup(context_view(ctx@), name@) is Some,
        r is Some ==> r->0@ == lookup(context_view(ctx@), name@)->0,
{
    let ghost view = context_view(ctx@);
    let mut i: usize = 0;
    assert(view.subrange(0, view.len() as int) =~= view);
    while i < ctx.len()
        invariant
            view == context_view(ctx@),
            i <= ctx@.len(),
            lookup(view, name@) == lookup(view.subrange(i as int, view.len() as int), name@),
        decreases ctx@.len() - i,
    {
        let ghost rest = view.subrange(i as int, view.len() as int);
        assert(rest[0] == (ctx@[i as int].0@, ctx@[i as int].1@));
        if crate::text::text_eq(&ctx[i].0, name) {
            return Some(&ctx[i].1);
        }
        assert(rest.drop_first() =~= view.subrange(i + 1, view.len() as int));
        i = i + 1;
    }
    None
}

/// Where the first `}` at or after `k` stands, if any.
fn find_close(s: &str, n: usize, k: usize) -> (r: Option<usize>)
    requires
        n == s@.len(),
        k <= n,
    ensures
        r is Some ==> close_from(s@, k as int) == Some(r->0 as int),
        r is None ==> close_from(s@, k as int) is None,
        r is Some ==> k <= r->0 < n,
{
    let mut m: usize = k;
    while m < n
        invariant
            n == s@.len(),
            k <= m <= n,
            close_from(s@, k as int) == close_from(s@, m as int),
        decreases n - m,
    {
        if s.get_char(m) == '}' {
            return Some(m);
        }
        m = m + 1;
    }
    None
}

/// Replaces each `${name}` placeholder of `template` whose name is in `ctx`
/// by its value, scanning left to right. Unknown placeholders stay verbatim.
pub fn substitute(template: &str, ctx: &Vec<(String, String)>) -> (r: String)
    ensures
        r@ == substituted(template@, context_view(ctx@)),
{
    let ghost c = context_view(ctx@);
    let n = template.unicode_len();
    let mut out = String::new();
    let mut i: usize = 0;
    while i < n
        invariant
            n == template@.len(),
            c == context_view(ctx@),
            i <= n,
            out@ + substituted_from(template@, i as int, c) == substituted(template@, c),
        decreases n - i,
    {
        let ghost s = template@;
        let mut close: Option<usize> = None;
        if i + 1 < n && template.get_char(i) == '$' && template.get_char(i + 1) == '{' {
            close = find_close(template, n, i + 2);
        }
        match close {
            Some(j) => {
                assert(opens_at(s, i as int));
                assert(close_from(s, i + 2) == Some(j as int));
                let name = template.substring_char(i + 2, j);
                let ghost before = out@;
                let ghost rest = substituted_from(s, j + 1, c);
                match lookup_value(ctx, name) {
                    Some(v) => {
                        assert(substituted_from(s, i as int, c) == v@ + rest);
                        out.append(v.as_str());
                    },
                    None => {
                        assert(substituted_from(s, i as int, c) == s.subrange(i as int, j + 1) + rest);
                        out.append(template.substring_char(i, j + 1));
                    },
                }
                assert(out@ + rest =~= before + substituted_from(s, i as int, c));
                i = j + 1;
            },
            None => {
                assert(substituted_from(s, i as int, c) == seq![s[i as int]] + substituted_from(
                    s,
                    i + 1,
                    c,
                ));
                let piece = template.substring_char(i, i + 1);
                assert(piece@ =~= seq![s[i as int]]);
                out.append(piece);
                assert(out@ + substituted_from(s, i + 1, c) =~= substituted(s, c));
                i = i + 1;
            },
        }
    }
    assert(out@ =~= substituted(template@, c));
    out
}

} // verus!
