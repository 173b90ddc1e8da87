//! Filling the `{x}`, `{y}` and `{z}` placeholders of a URL template.
use vstd::prelude::*;

verus! {

/// `t` starts with the three-character placeholder `{c}`.
pub open spec fn starts_with_token(t: Seq<char>, c: char) -> bool {
    t.len() >= 3 && t[0] == '{' && t[1] == c && t[2] == '}'
}

/// `t` with every `{x}` replaced by `xs`, every `{y}` by `ys` and every `{z}` by `zs`,
/// read left to right. The three placeholders cannot overlap, so the result is
/// the same whatever order the replacements are made in.
pub open spec fn fill(t: Seq<char>, xs: Seq<char>, ys: Seq<char>, zs: Seq<char>) -> Seq<char>
    decreases t.len(),
{
    if t.len() == 0 {
        Seq::empty()
    } else if starts_with_token(t, 'x') {
        xs + fill(t.skip(3), xs, ys, zs)
    } else if starts_with_token(t, 'y') {
        ys + fill(t.skip(3), xs, ys, zs)
    } else if starts_with_token(t, 'z') {
        zs + fill(t.skip(3), xs, ys, zs)
    } else {
        seq![t[0]] + fill(t.skip(1), xs, ys, zs)
    }
}

proof fn lemma_fill_step(t: Seq<char>, i: int, k: int, xs: Seq<char>, ys: Seq<char>, zs: Seq<char>)
    requires
        0 <= i < t.len(),
        1 <= k,
        i + k <= t.len(),
    ensures
        t.subrange(i, t.len() as int).skip(k) == t.subrange(i + k, t.len() as int),
{
    assert(t.subrange(i, t.len() as int).skip(k) =~= t.subrange(i + k, t.len() as int));
}

/// Fills the placeholders of `template` with `xs`, `ys` and `zs`.
pub fn fill_template(template: &str, xs: &str, ys: &str, zs: &str) -> (r: String)
    ensures
        r@ == fill(template@, xs@, ys@, zs@),
{
    let n = template.unicode_len();
    let mut r = String::new();
    let mut i: usize = 0;
    assert(template@.subrange(0, n as int) =~= template@);
    while i < n
        invariant
            n == template@.len(),
            i <= n,
            r@ + fill(template@.subrange(i as int, n as int), xs@, ys@, zs@)
                == fill(template@, xs@, ys@, zs@),
        decreases n - i,
    {
        let ghost rest = template@.subrange(i as int, n as int);
        let mut step: usize = 1;
        if n - i >= 3 && template.get_char(i) == '{' && template.get_char(i + 2) == '}' {
            let c = template.get_char(i + 1);
            if c == 'x' {
                r.append(xs);
                step = 3;
            } else if c == 'y' {
                r.append(ys);
                step = 3;
            } else if c == 'z' {
                r.append(zs);
                step = 3;
            }
        }
        if step == 1 {
            r.append(template.substring_char(i, i + 1));
        }
        proof {
            lemma_fill_step(template@, i as int, step as int, xs@, ys@, zs@);
            assert(template@.subrange(i as int, i + 1) =~= seq![rest[0]]);
        }
        i = i + step;
        assert(r@ + fill(template@.subrange(i as int, n as int), xs@, ys@, zs@)
            =~= fill(template@, xs@, ys@, zs@));
    }
    assert(template@.subrange(n as int, n as int) =~= Seq::<char>::empty());
    r
}

} // verus!
