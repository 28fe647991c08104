//! Substitution of `{{name}}` placeholders in query templates.
use vstd::prelude::*;
use vstd::string::StrSliceExecFns;
use vstd::string::StringExecFns;

verus! {

/// The text `{{name}}`.
pub open spec fn placeholder(name: Seq<char>) -> Seq<char> {
    seq!['{', '{'] + name + seq!['}', '}']
}

/// Whether `pat` occurs in `s` at position `i`.
pub open spec fn occurs_at(s: Seq<char>, pat: Seq<char>, i: int) -> bool {
    0 <= i && i + pat.len() <= s.len() && s.subrange(i, i + pat.len()) == pat
}

/// Whether `pat` occurs anywhere in `s`.
pub open spec fn contains(s: Seq<char>, pat: Seq<char>) -> bool {
    exists|i: int| occurs_at(s, pat, i)
}

/// `s` with every occurrence of `pat` replaced by `rep`, scanning left to
/// right and never matching inside text that was already replaced. An empty
/// pattern leaves `s` as it is.
pub open spec fn replace_all(s: Seq<char>, pat: Seq<char>, rep: Seq<char>) -> Seq<char>
    decreases s.len(),
{
    if s.len() == 0 {
        s
    } else if pat.len() > 0 && pat.len() <= s.len() && s.take(pat.len() as int) == pat {
        rep + replace_all(s.skip(pat.len() as int), pat, rep)
    } else {
        seq![s[0]] + replace_all(s.skip(1), pat, rep)
    }
}

/// The template after replacing the placeholder of each parameter, in the
/// order of the parameters.
pub open spec fn rendered(t: Seq<char>, params: Seq<(Seq<char>, Seq<char>)>) -> Seq<char>
    decreases params.len(),
{
    if params.len() == 0 {
        t
    } else {
        let last = params.last();
        replace_all(rendered(t, params.drop_last()), placeholder(last.0), last.1)
    }
}

/// The views of a parameter list.
pub open spec fn params_view(params: Seq<(&str, &str)>) -> Seq<(Seq<char>, Seq<char>)> {
    params.map_values(|p: (&str, &str)| (p.0@, p.1@))
}

/// Whether `pat` occurs in `s` at position `i`.
fn matches_at(s: &str, n: usize, pat: &str, m: usize, i: usize) -> (r: bool)
    requires
        n == s@.len(),
        m == pat@.len(),
        i <= n,
    ensures
        r == (i + m <= n && s@.subrange(i as int, i + m) == pat@),
{
    if m > n - i {
        return false;
    }
    let mut k: usize = 0;
    while k < m
        invariant
            n == s@.len(),
            m == pat@.len(),
            i + m <= n,
            k <= m,
            forall|j: int| 0 <= j < k ==> s@[i + j] == pat@[j],
        decreases m - k,
    {
        if s.get_char(i + k) != pat.get_char(k) {
            assert(s@.subrange(i as int, i + m)[k as int] != pat@[k as int]);
            return false;
        }
        k = k + 1;
    }
    assert(s@.subrange(i as int, i + m) =~= pat@);
    true
}

/// Replaces every occurrence of `pat` in `s` by `rep`, left to right.
pub fn replace_all_exec(s: &str, pat: &str, rep: &str) -> (r: String)
    ensures
        r@ == replace_all(s@, pat@, rep@),
{
    let n = s.unicode_len();
    let m = pat.unicode_len();
    let mut out = String::new();
    let mut i: usize = 0;
    assert(s@.skip(0) =~= s@);
    assert(out@ + replace_all(s@, pat@, rep@) =~= replace_all(s@, pat@, rep@));
    while i < n
        invariant
            n == s@.len(),
            m == pat@.len(),
            i <= n,
            out@ + replace_all(s@.skip(i as int), pat@, rep@) == replace_all(s@, pat@, rep@),
        decreases n - i,
    {
        let rest = Ghost(s@.skip(i as int));
        if m > 0 && matches_at(s, n, pat, m, i) {
            assert(rest@.take(m as int) =~= s@.subrange(i as int, i + m));
            assert(rest@.skip(m as int) =~= s@.skip(i + m));
            let ghost before = out@;
            out.append(rep);
            assert(before + (rep@ + replace_all(s@.skip(i + m), pat@, rep@)) =~= out@ + replace_all(
                s@.skip(i + m),
                pat@,
                rep@,
            ));
            i = i + m;
        } else {
            assert(m > 0 && m <= rest@.len() ==> rest@.take(m as int) =~= s@.subrange(i as int, i + m));
            assert(rest@.skip(1) =~= s@.skip(i + 1));
            let c = s.substring_char(i, i + 1);
            assert(c@ =~= seq![rest@[0]]);
            let ghost before = out@;
            out.append(c);
            assert(before + (c@ + replace_all(s@.skip(i + 1), pat@, rep@)) =~= out@ + replace_all(
                s@.skip(i + 1),
                pat@,
                rep@,
            ));
            i = i + 1;
        }
    }
    assert(s@.skip(n as int) =~= Seq::<char>::empty());
    assert(out@ =~= out@ + replace_all(s@.skip(n as int), pat@, rep@));
    out
}

/// Builds the text `{{name}}`.
pub fn placeholder_of(name: &str) -> (r: String)
    ensures
        r@ == placeholder(name@),
{
    let mut r = String::from_str("{{");
    r.append(name);
    r.append("}}");
    proof {
        reveal_strlit("{{");
        reveal_strlit("}}");
    }
    assert(r@ =~= placeholder(name@));
    r
}

/// Replaces, for each `(name, value)` in order, every `{{name}}` in the
/// template by `value`. Placeholders without a parameter stay as they are.
pub fn render_query(template: &str, params: &[(&str, &str)]) -> (r: String)
    ensures
        r@ == rendered(template@, params_view(params@)),
{
    let mut cur = String::from_str(template);
    let mut k: usize = 0;
    while k < params.len()
        invariant
            k <= params@.len(),
            cur@ == rendered(template@, params_view(params@).take(k as int)),
        decreases params@.len() - k,
    {
        let (name, value) = params[k];
        let pat = placeholder_of(name);
        let next = replace_all_exec(cur.as_str(), pat.as_str(), value);
        let ghost pv = params_view(params@);
        assert(pv.take(k + 1).drop_last() =~= pv.take(k as int));
        cur = next;
        k = k + 1;
    }
    assert(params_view(params@).take(k as int) =~= params_view(params@));
    cur
}

/// Replacing a pattern that does not occur leaves the text unchanged.
pub proof fn lemma_replace_absent(s: Seq<char>, pat: Seq<char>, rep: Seq<char>)
    requires
        !contains(s, pat),
    ensures
        replace_all(s, pat, rep) == s,
    decreases s.len(),
{
    if s.len() > 0 {
        if pat.len() > 0 && pat.len() <= s.len() && s.take(pat.len() as int) == pat {
            assert(occurs_at(s, pat, 0));
        } else {
            assert forall|i: int| !occurs_at(s.skip(1), pat, i) by {
                if occurs_at(s.skip(1), pat, i) {
                    assert(s.subrange(i + 1, i + 1 + pat.len()) =~= s.skip(1).subrange(i, i + pat.len()));
                    assert(occurs_at(s, pat, i + 1));
                }
            }
            lemma_replace_absent(s.skip(1), pat, rep);
            assert(seq![s[0]] + s.skip(1) =~= s);
        }
    }
}

/// Rendering with parameters none of whose placeholders occurs in the
/// template returns the template unchanged.
pub proof fn lemma_render_without_placeholders(t: Seq<char>, params: Seq<(Seq<char>, Seq<char>)>)
    requires
        forall|k: int| 0 <= k < params.len() ==> !contains(t, #[trigger] placeholder(params[k].0)),
    ensures
        rendered(t, params) == t,
    decreases params.len(),
{
    if params.len() > 0 {
        let front = params.drop_last();
        assert forall|k: int| 0 <= k < front.len() implies !contains(t, #[trigger] placeholder(front[k].0)) by {
            assert(front[k] == params[k]);
        }
        lemma_render_without_placeholders(t, front);
        let k = params.len() - 1;
        assert(!contains(t, placeholder(params[k].0)));
        lemma_replace_absent(t, placeholder(params.last().0), params.last().1);
    }
}

/// Text free of `{` passes through a replacement of a pattern that starts
/// with `{` unchanged, in front of whatever follows it.
pub proof fn lemma_replace_plain_prefix(x: Seq<char>, t: Seq<char>, pat: Seq<char>, rep: Seq<char>)
    requires
        pat.len() > 0,
        pat[0] == '{',
        forall|i: int| 0 <= i < x.len() ==> x[i] != '{',
    ensures
        replace_all(x + t, pat, rep) == x + replace_all(t, pat, rep),
    decreases x.len(),
{
    if x.len() > 0 {
        let s = x + t;
        assert(s[0] == x[0]);
        if pat.len() <= s.len() && s.take(pat.len() as int) == pat {
            assert(s.take(pat.len() as int)[0] == s[0]);
        }
        assert(s.skip(1) =~= x.skip(1) + t);
        lemma_replace_plain_prefix(x.skip(1), t, pat, rep);
        assert(seq![x[0]] + (x.skip(1) + replace_all(t, pat, rep)) =~= x + replace_all(t, pat, rep));
    }
}

/// A pattern at the very front is replaced.
pub proof fn lemma_replace_front(pat: Seq<char>, t: Seq<char>, rep: Seq<char>)
    requires
        pat.len() > 0,
    ensures
        replace_all(pat + t, pat, rep) == rep + replace_all(t, pat, rep),
{
    let s = pat + t;
    assert(s.take(pat.len() as int) =~= pat);
    assert(s.skip(pat.len() as int) =~= t);
}

/// Every occurrence of a placeholder is replaced: with one parameter
/// `(name, value)`, a template that holds `{{name}}` twice among text free
/// of `{` gets `value` in both places.
pub proof fn lemma_render_replaces_each_occurrence(
    s1: Seq<char>,
    s2: Seq<char>,
    s3: Seq<char>,
    name: Seq<char>,
    value: Seq<char>,
)
    requires
        forall|i: int| 0 <= i < s1.len() ==> s1[i] != '{',
        forall|i: int| 0 <= i < s2.len() ==> s2[i] != '{',
        forall|i: int| 0 <= i < s3.len() ==> s3[i] != '{',
    ensures
        rendered(s1 + placeholder(name) + s2 + placeholder(name) + s3, seq![(name, value)])
            == s1 + value + s2 + value + s3,
{
    let p = placeholder(name);
    let params = seq![(name, value)];
    assert(params.drop_last() =~= Seq::<(Seq<char>, Seq<char>)>::empty());
    let t = s1 + p + s2 + p + s3;
    assert(rendered(t, params.drop_last()) == t);
    assert(t =~= s1 + (p + (s2 + (p + s3))));
    lemma_replace_plain_prefix(s1, p + (s2 + (p + s3)), p, value);
    lemma_replace_front(p, s2 + (p + s3), value);
    lemma_replace_plain_prefix(s2, p + s3, p, value);
    lemma_replace_front(p, s3, value);
    lemma_replace_plain_prefix(s3, Seq::<char>::empty(), p, value);
    assert(s3 + Seq::<char>::empty() =~= s3);
    assert(replace_all(Seq::<char>::empty(), p, value) =~= Seq::<char>::empty());
    assert(s1 + (value + (s2 + (value + s3))) =~= s1 + value + s2 + value + s3);
}

} // verus!
