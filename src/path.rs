use vstd::prelude::*;

verus! {

/// The path separator used for local and remote paths.
pub open spec fn is_separator(c: char) -> bool {
    c == '/'
}

/// `p` with every leading separator removed: what is left once the root of
/// a path is taken away.
pub open spec fn trim_leading_separators(p: Seq<char>) -> Seq<char>
    decreases p.len(),
{
    if p.len() > 0 && is_separator(p[0]) {
        trim_leading_separators(p.drop_first())
    } else {
        p
    }
}

/// Joining `rel` onto `base`, as a path join does it: an absolute `rel`
/// replaces `base`; otherwise one separator is put between the two, unless
/// `base` is empty or already ends with one.
pub open spec fn join_path(base: Seq<char>, rel: Seq<char>) -> Seq<char> {
    if rel.len() > 0 && is_separator(rel[0]) {
        rel
    } else if base.len() == 0 || is_separator(base.last()) {
        base + rel
    } else {
        base + seq!['/'] + rel
    }
}

proof fn lemma_trim_skips_separator(p: Seq<char>, i: int)
    requires
        0 <= i < p.len(),
        is_separator(p[i]),
    ensures
        trim_leading_separators(p.subrange(i, p.len() as int)) == trim_leading_separators(
            p.subrange(i + 1, p.len() as int),
        ),
{
    assert(p.subrange(i, p.len() as int).drop_first() =~= p.subrange(i + 1, p.len() as int));
}

/// Removes every leading separator of `p`.
pub fn strip_leading_separators(p: &str) -> (r: String)
    ensures
        r@ == trim_leading_separators(p@),
{
    let n = p.unicode_len();
    let mut i: usize = 0;
    assert(p@.subrange(0, n as int) =~= p@);
    while i < n && p.get_char(i) == '/'
        invariant
            n == p@.len(),
            i <= n,
            trim_leading_separators(p@.subrange(i as int, n as int)) == trim_leading_separators(
                p@,
            ),
        decreases n - i,
    {
        proof {
            lemma_trim_skips_separator(p@, i as int);
        }
        i = i + 1;
    }
    let rest = p.substring_char(i, n);
    let r = rest.to_owned();
    assert(r@ == rest@);
    r
}

/// Joins `rel` onto `base` with path-join rules.
pub fn join(base: &str, rel: &str) -> (r: String)
    ensures
        r@ == join_path(base@, rel@),
{
    let nb = base.unicode_len();
    let nr = rel.unicode_len();
    if nr > 0 && rel.get_char(0) == '/' {
        rel.to_owned()
    } else if nb == 0 || base.get_char(nb - 1) == '/' {
        let r = base.to_owned();
        r.concat(rel)
    } else {
        let mut r = base.to_owned();
        r.append("/");
        proof {
            reveal_strlit("/");
        }
        assert(r@ == base@ + seq!['/']);
        r.concat(rel)
    }
}

} // verus!
