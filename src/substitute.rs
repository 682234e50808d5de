use vstd::prelude::*;
use vstd::slice::slice_to_vec;
use vstd::string::StringSliceAdditionalSpecFns;
use vstd::utf8::valid_utf8;

verus! {

/// The sentinel that a template writes wherever the project name belongs.
pub const PLACEHOLDER: &'static str = "__PROJECT_NAME__";

/// Literal, global, left-to-right replacement of every non-overlapping
/// occurrence of `pat` in `s` by `rep`.
pub open spec fn replace_all(s: Seq<u8>, pat: Seq<u8>, rep: Seq<u8>) -> Seq<u8>
    decreases s.len(),
{
    if pat.len() == 0 || s.len() < pat.len() {
        s
    } else if s.subrange(0, pat.len() as int) == pat {
        rep + replace_all(s.subrange(pat.len() as int, s.len() as int), pat, rep)
    } else {
        seq![s[0]] + replace_all(s.subrange(1, s.len() as int), pat, rep)
    }
}

/// What a template file becomes: text has the placeholder replaced by the
/// project name, anything else is kept byte for byte.
pub open spec fn rendered(content: Seq<u8>, is_text: bool, name: Seq<u8>) -> Seq<u8> {
    if is_text {
        replace_all(content, PLACEHOLDER.spec_bytes(), name)
    } else {
        content
    }
}

/// Whether `pat` occurs anywhere in `s`.
pub open spec fn occurs_in(s: Seq<u8>, pat: Seq<u8>) -> bool {
    exists|i: int| 0 <= i && i + pat.len() <= s.len() && #[trigger] s.subrange(i, i + pat.len()) == pat
}

/// The pieces laid end to end with `sep` between each two.
pub open spec fn join(pieces: Seq<Seq<u8>>, sep: Seq<u8>) -> Seq<u8>
    decreases pieces.len(),
{
    if pieces.len() == 0 {
        seq![]
    } else if pieces.len() == 1 {
        pieces[0]
    } else {
        pieces[0] + sep + join(pieces.drop_first(), sep)
    }
}

/// The stretches of `s` that lie between the occurrences of `pat` that
/// `replace_all` replaces.
pub open spec fn pieces(s: Seq<u8>, pat: Seq<u8>) -> Seq<Seq<u8>>
    decreases s.len(),
{
    if pat.len() == 0 || s.len() < pat.len() {
        seq![s]
    } else if s.subrange(0, pat.len() as int) == pat {
        seq![Seq::<u8>::empty()] + pieces(s.subrange(pat.len() as int, s.len() as int), pat)
    } else {
        let t = pieces(s.subrange(1, s.len() as int), pat);
        t.update(0, seq![s[0]] + t[0])
    }
}

proof fn lemma_join_starts_with_first(t: Seq<Seq<u8>>, sep: Seq<u8>)
    requires
        t.len() >= 1,
    ensures
        join(t, sep).len() >= t[0].len(),
        join(t, sep).subrange(0, t[0].len() as int) == t[0],
{
    if t.len() > 1 {
        assert(join(t, sep).subrange(0, t[0].len() as int) =~= t[0]);
    }
}

proof fn lemma_join_extend_first(t: Seq<Seq<u8>>, x: Seq<u8>, sep: Seq<u8>)
    requires
        t.len() >= 1,
    ensures
        join(t.update(0, x + t[0]), sep) == x + join(t, sep),
{
    let u = t.update(0, x + t[0]);
    if t.len() > 1 {
        assert(u.drop_first() =~= t.drop_first());
        assert(join(u, sep) =~= x + join(t, sep));
    }
}

proof fn lemma_pieces(s: Seq<u8>, pat: Seq<u8>, rep: Seq<u8>)
    requires
        pat.len() > 0,
    ensures
        pieces(s, pat).len() >= 1,
        join(pieces(s, pat), pat) == s,
        join(pieces(s, pat), rep) == replace_all(s, pat, rep),
        forall|k: int| 0 <= k < pieces(s, pat).len() ==> !occurs_in(#[trigger] pieces(s, pat)[k], pat),
    decreases s.len(),
{
    let ps = pieces(s, pat);
    let n = pat.len() as int;
    if s.len() < pat.len() {
    } else if s.subrange(0, n) == pat {
        let rest = s.subrange(n, s.len() as int);
        lemma_pieces(rest, pat, rep);
        let t = pieces(rest, pat);
        assert(ps.drop_first() =~= t);
        assert(join(ps, pat) =~= pat + rest);
        assert(s =~= s.subrange(0, n) + rest);
        assert(join(ps, rep) =~= rep + join(t, rep));
        assert forall|k: int| 0 <= k < ps.len() implies !occurs_in(#[trigger] ps[k], pat) by {
            if k > 0 {
                assert(ps[k] == t[k - 1]);
            }
        }
    } else {
        let rest = s.subrange(1, s.len() as int);
        lemma_pieces(rest, pat, rep);
        let t = pieces(rest, pat);
        let x = seq![s[0]];
        lemma_join_extend_first(t, x, pat);
        lemma_join_extend_first(t, x, rep);
        assert(s =~= x + rest);
        assert forall|k: int| 0 <= k < ps.len() implies !occurs_in(#[trigger] ps[k], pat) by {
            if k == 0 {
                if occurs_in(ps[0], pat) {
                    let j = choose|j: int|
                        0 <= j && j + n <= ps[0].len() && #[trigger] ps[0].subrange(j, j + n)
                            == pat;
                    if j == 0 {
                        lemma_join_starts_with_first(t, pat);
                        assert(ps[0] =~= x + t[0]);
                        assert(s.subrange(0, n) =~= ps[0].subrange(0, n));
                    } else {
                        assert(t[0].subrange(j - 1, j - 1 + n) =~= ps[0].subrange(j, j + n));
                    }
                }
            }
        }
    }
}

/// Substitution is exact: text content splits into pieces, none of which
/// holds the placeholder, such that the content is those pieces with the
/// placeholder between each two, and the rendered text is the same pieces with
/// the project name between each two. So every occurrence of the placeholder
/// is replaced, and every byte outside them is kept in order.
pub proof fn lemma_exact_substitution(content: Seq<u8>, name: Seq<u8>)
    ensures
        exists|ps: Seq<Seq<u8>>|
            #[trigger] join(ps, PLACEHOLDER.spec_bytes()) == content && join(ps, name) == rendered(
                content,
                true,
                name,
            ) && forall|k: int|
                0 <= k < ps.len() ==> !occurs_in(#[trigger] ps[k], PLACEHOLDER.spec_bytes()),
{
    lemma_placeholder_nonempty();
    lemma_pieces(content, PLACEHOLDER.spec_bytes(), name);
    let ps = pieces(content, PLACEHOLDER.spec_bytes());
    assert(join(ps, PLACEHOLDER.spec_bytes()) == content);
}

/// Whether no byte of `a` is a byte of `b`.
pub open spec fn disjoint_bytes(a: Seq<u8>, b: Seq<u8>) -> bool {
    forall|i: int, j: int| 0 <= i < a.len() && 0 <= j < b.len() ==> a[i] != b[j]
}

proof fn lemma_join_free(ps: Seq<Seq<u8>>, pat: Seq<u8>, sep: Seq<u8>)
    requires
        pat.len() > 0,
        sep.len() > 0,
        disjoint_bytes(sep, pat),
        forall|k: int| 0 <= k < ps.len() ==> !occurs_in(#[trigger] ps[k], pat),
    ensures
        !occurs_in(join(ps, sep), pat),
    decreases ps.len(),
{
    if ps.len() == 1 {
        assert(!occurs_in(ps[0], pat));
    } else if ps.len() > 1 {
        let rest = ps.drop_first();
        assert forall|k: int| 0 <= k < rest.len() implies !occurs_in(#[trigger] rest[k], pat) by {
            assert(rest[k] == ps[k + 1]);
        }
        lemma_join_free(rest, pat, sep);
        let x = join(ps, sep);
        let a = ps[0];
        let b = join(rest, sep);
        let n = pat.len() as int;
        assert(x == a + sep + b);
        assert(!occurs_in(a, pat));
        if occurs_in(x, pat) {
            let j = choose|j: int| 0 <= j && j + n <= x.len() && #[trigger] x.subrange(j, j + n) == pat;
            if j + n <= a.len() {
                assert(a.subrange(j, j + n) =~= x.subrange(j, j + n));
            } else if j >= a.len() + sep.len() {
                let m = j - a.len() - sep.len();
                assert(b.subrange(m, m + n) =~= x.subrange(j, j + n));
            } else {
                let p = if j < a.len() { a.len() as int } else { j };
                assert(x[p] == sep[p - a.len()]);
                assert(x.subrange(j, j + n)[p - j] == x[p]);
                assert(x[p] == pat[p - j]);
            }
        }
    }
}

/// A project name that is not empty and shares no byte with the placeholder
/// leaves no placeholder behind in rendered text.
pub proof fn lemma_no_placeholder_left(content: Seq<u8>, name: Seq<u8>)
    requires
        name.len() > 0,
        disjoint_bytes(name, PLACEHOLDER.spec_bytes()),
    ensures
        !occurs_in(rendered(content, true, name), PLACEHOLDER.spec_bytes()),
{
    let pat = PLACEHOLDER.spec_bytes();
    lemma_placeholder_nonempty();
    lemma_pieces(content, pat, name);
    lemma_join_free(pieces(content, pat), pat, name);
}

/// Whether `pat` occurs in `s` starting at `i`.
fn matches_at(s: &[u8], i: usize, pat: &[u8]) -> (r: bool)
    requires
        i + pat@.len() <= s@.len(),
    ensures
        r == (s@.subrange(i as int, i + pat@.len()) == pat@),
{
    let n = s.len();
    let mut k: usize = 0;
    while k < pat.len()
        invariant
            0 <= k <= pat@.len(),
            n == s@.len(),
            i + pat@.len() <= s@.len(),
            forall|j: int| 0 <= j < k ==> s@[i + j] == pat@[j],
        decreases pat@.len() - k,
    {
        if s[i + k] != pat[k] {
            assert(s@.subrange(i as int, i + pat@.len())[k as int] != pat@[k as int]);
            return false;
        }
        k = k + 1;
    }
    assert(s@.subrange(i as int, i + pat@.len()) =~= pat@);
    true
}

/// Replaces every non-overlapping occurrence of `pat` in `s`, scanning from
/// the left, by `rep`.
pub fn replace_bytes(s: &[u8], pat: &[u8], rep: &[u8]) -> (r: Vec<u8>)
    requires
        pat@.len() > 0,
    ensures
        r@ == replace_all(s@, pat@, rep@),
{
    let mut out: Vec<u8> = Vec::new();
    let mut i: usize = 0;
    assert(s@.subrange(0, s@.len() as int) =~= s@);
    assert(out@ + replace_all(s@, pat@, rep@) =~= replace_all(s@, pat@, rep@));
    while i < s.len()
        invariant
            0 <= i <= s@.len(),
            pat@.len() > 0,
            out@ + replace_all(s@.subrange(i as int, s@.len() as int), pat@, rep@) == replace_all(
                s@,
                pat@,
                rep@,
            ),
        decreases s@.len() - i,
    {
        let ghost t = s@.subrange(i as int, s@.len() as int);
        if s.len() - i >= pat.len() && matches_at(s, i, pat) {
            let ghost old_out = out@;
            let mut j: usize = 0;
            while j < rep.len()
                invariant
                    0 <= j <= rep@.len(),
                    out@ == old_out + rep@.subrange(0, j as int),
                decreases rep@.len() - j,
            {
                out.push(rep[j]);
                j = j + 1;
                assert(out@ =~= old_out + rep@.subrange(0, j as int));
            }
            assert(t.subrange(0, pat@.len() as int) =~= s@.subrange(i as int, i + pat@.len()));
            assert(t.subrange(pat@.len() as int, t.len() as int) =~= s@.subrange(
                i + pat@.len(),
                s@.len() as int,
            ));
            assert(rep@.subrange(0, rep@.len() as int) =~= rep@);
            i = i + pat.len();
            assert(out@ + replace_all(s@.subrange(i as int, s@.len() as int), pat@, rep@) =~= old_out
                + replace_all(t, pat@, rep@));
        } else {
            let ghost old_out = out@;
            proof {
                assert(t.subrange(1, t.len() as int) =~= s@.subrange(i + 1, s@.len() as int));
                if t.len() < pat@.len() {
                    assert(replace_all(t.subrange(1, t.len() as int), pat@, rep@) == t.subrange(
                        1,
                        t.len() as int,
                    ));
                    assert(t =~= seq![t[0]] + t.subrange(1, t.len() as int));
                } else {
                    assert(t.subrange(0, pat@.len() as int) =~= s@.subrange(
                        i as int,
                        i + pat@.len(),
                    ));
                }
            }
            out.push(s[i]);
            i = i + 1;
            assert(out@ + replace_all(s@.subrange(i as int, s@.len() as int), pat@, rep@) =~= old_out
                + replace_all(t, pat@, rep@));
        }
    }
    assert(s@.subrange(i as int, s@.len() as int) =~= Seq::<u8>::empty());
    assert(out@ + Seq::<u8>::empty() =~= out@);
    out
}

proof fn lemma_placeholder_nonempty()
    ensures
        PLACEHOLDER.spec_bytes().len() > 0,
{
    reveal_strlit("__PROJECT_NAME__");
    assert(PLACEHOLDER@.len() > 0);
}

/// Renders one template file for a project: well-formed UTF-8 text has every
/// placeholder replaced by the project name; any other content is returned
/// unchanged. The placeholder is ASCII, so in well-formed UTF-8 a match of its
/// bytes is exactly a match of its characters.
pub fn render_file(content: &[u8], project_name: &str) -> (r: Vec<u8>)
    ensures
        r@ == rendered(content@, valid_utf8(content@), project_name.spec_bytes()),
{
    if is_utf8(content) {
        proof {
            lemma_placeholder_nonempty();
        }
        replace_bytes(content, PLACEHOLDER.as_bytes(), project_name.as_bytes())
    } else {
        slice_to_vec(content)
    }
}

/// Relies on std::str::from_utf8: it succeeds exactly on well-formed UTF-8.
#[verifier::external_body]
fn is_utf8(bytes: &[u8]) -> (r: bool)
    ensures
        r == valid_utf8(bytes@),
{
    std::str::from_utf8(bytes).is_ok()
}

} // verus!
