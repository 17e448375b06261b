//! Character-sequence utilities for template binding: equality, prefix tests,
//! and replacement of every occurrence of a pattern, with the placeholder
//! lemmas the dispatcher's laws rest on.

use vstd::prelude::*;

verus! {

/// Replace every occurrence of `pat` in `s` by `val`, scanning left to right.
/// An empty pattern leaves `s` unchanged.
pub open spec fn spec_replace(s: Seq<char>, pat: Seq<char>, val: Seq<char>) -> Seq<char>
    decreases s.len(),
{
    if pat.len() == 0 || s.len() < pat.len() {
        s
    } else if s.subrange(0, pat.len() as int) == pat {
        val + spec_replace(s.subrange(pat.len() as int, s.len() as int), pat, val)
    } else {
        s.subrange(0, 1) + spec_replace(s.subrange(1, s.len() as int), pat, val)
    }
}

/// The template placeholder written for an argument name: `{{name}}`.
pub open spec fn spec_placeholder(name: Seq<char>) -> Seq<char> {
    seq!['{', '{'] + name + seq!['}', '}']
}

/// `pat` occurs in `s` starting at position `i`.
pub open spec fn contains_at(s: Seq<char>, pat: Seq<char>, i: int) -> bool {
    0 <= i && i + pat.len() <= s.len() && s.subrange(i, i + pat.len()) == pat
}

/// `pat` occurs somewhere in `s`.
pub open spec fn contains_seq(s: Seq<char>, pat: Seq<char>) -> bool {
    exists|i: int| contains_at(s, pat, i)
}

/// `s` holds no brace character.
pub open spec fn no_brace(s: Seq<char>) -> bool {
    forall|i: int| 0 <= i < s.len() ==> s[i] != '{' && s[i] != '}'
}

pub fn str_eq(a: &str, b: &str) -> (r: bool)
    ensures
        r == (a@ == b@),
{
    let sa = String::from_str(a);
    let sb = String::from_str(b);
    sa == sb
}

/// Whether `s` begins with `pat`.
pub fn starts_with_pat(s: &str, pat: &str) -> (r: bool)
    ensures
        r == (pat@.len() <= s@.len() && s@.subrange(0, pat@.len() as int) == pat@),
{
    let sn = s.unicode_len();
    let pn = pat.unicode_len();
    if pn > sn {
        return false;
    }
    let prefix = String::from_str(s.substring_char(0, pn));
    let whole = String::from_str(pat);
    prefix == whole
}

/// Replace every occurrence of `pat` in `s` by `val`.
pub fn replace_all(s: &str, pat: &str, val: &str) -> (r: String)
    ensures
        r@ == spec_replace(s@, pat@, val@),
    decreases s@.len(),
{
    let sn = s.unicode_len();
    let pn = pat.unicode_len();
    if pn == 0 || sn < pn {
        return String::from_str(s);
    }
    if starts_with_pat(s, pat) {
        let rest = s.substring_char(pn, sn);
        let tail = replace_all(rest, pat, val);
        let mut out = String::from_str(val);
        out.append(tail.as_str());
        out
    } else {
        let head = s.substring_char(0, 1);
        let rest = s.substring_char(1, sn);
        let tail = replace_all(rest, pat, val);
        let mut out = String::from_str(head);
        out.append(tail.as_str());
        out
    }
}

/// Build the `{{name}}` placeholder for an argument name.
pub fn placeholder(name: &str) -> (r: String)
    ensures
        r@ == spec_placeholder(name@),
{
    let mut out = String::from_str("{{");
    out.append(name);
    out.append("}}");
    proof {
        reveal_strlit("{{");
        reveal_strlit("}}");
        assert(out@ =~= spec_placeholder(name@));
    }
    out
}

/// A brace-free text holds no placeholder: every placeholder starts with `{`.
pub proof fn lemma_no_brace_no_placeholder(s: Seq<char>, name: Seq<char>)
    requires
        no_brace(s),
    ensures
        !contains_seq(s, spec_placeholder(name)),
{
    assert forall|i: int| !contains_at(s, spec_placeholder(name), i) by {
        if contains_at(s, spec_placeholder(name), i) {
            assert(s.subrange(i, i + spec_placeholder(name).len())[0] == s[i]);
            assert(s[i] == '{');
        }
    }
}

/// Concatenation preserves brace-freeness.
pub proof fn lemma_no_brace_concat(x: Seq<char>, y: Seq<char>)
    requires
        no_brace(x),
        no_brace(y),
    ensures
        no_brace(x + y),
{
    assert forall|i: int| 0 <= i < (x + y).len() implies (x + y)[i] != '{' && (x + y)[i] != '}' by {
        if i < x.len() {
            assert((x + y)[i] == x[i]);
        } else {
            assert((x + y)[i] == y[i - x.len()]);
        }
    }
}

/// Replacement walks over a brace-free prefix unchanged and rewrites the
/// pattern occurrence that follows it.
pub proof fn lemma_replace_prefix(pre: Seq<char>, pat: Seq<char>, val: Seq<char>, post: Seq<char>)
    requires
        no_brace(pre),
        pat.len() > 0,
        pat[0] == '{',
    ensures
        spec_replace(pre + pat + post, pat, val) == pre + val + spec_replace(post, pat, val),
    decreases pre.len(),
{
    let s = pre + pat + post;
    if pre.len() == 0 {
        assert(s.subrange(0, pat.len() as int) =~= pat);
        assert(s.subrange(pat.len() as int, s.len() as int) =~= post);
        assert(pre + val + spec_replace(post, pat, val) =~= val + spec_replace(post, pat, val));
    } else {
        assert(s[0] == pre[0]);
        assert(s.subrange(0, pat.len() as int) != pat) by {
            if s.subrange(0, pat.len() as int) == pat {
                assert(s.subrange(0, pat.len() as int)[0] == s[0]);
            }
        }
        assert(s.len() >= pat.len());
        let pre1 = pre.subrange(1, pre.len() as int);
        assert(s.subrange(1, s.len() as int) =~= pre1 + pat + post);
        lemma_replace_prefix(pre1, pat, val, post);
        assert(s.subrange(0, 1) + (pre1 + val + spec_replace(post, pat, val)) =~= pre + val
            + spec_replace(post, pat, val));
    }
}

/// Replacement leaves a string without any occurrence of the pattern as it is.
pub proof fn lemma_replace_noop_if_absent(s: Seq<char>, pat: Seq<char>, val: Seq<char>)
    requires
        pat.len() > 0,
        !contains_seq(s, pat),
    ensures
        spec_replace(s, pat, val) == s,
    decreases s.len(),
{
    if s.len() < pat.len() {
    } else {
        assert(s.subrange(0, pat.len() as int) != pat) by {
            if s.subrange(0, pat.len() as int) == pat {
                assert(contains_at(s, pat, 0));
            }
        }
        let s1 = s.subrange(1, s.len() as int);
        assert(!contains_seq(s1, pat)) by {
            assert forall|i: int| !contains_at(s1, pat, i) by {
                if contains_at(s1, pat, i) {
                    assert(s.subrange(i + 1, i + 1 + pat.len()) =~= s1.subrange(i, i + pat.len()));
                    assert(contains_at(s, pat, i + 1));
                }
            }
        }
        lemma_replace_noop_if_absent(s1, pat, val);
        assert(s.subrange(0, 1) + s1 =~= s);
    }
}

/// In `a + {{m}} + rest`, with `a` and `m` brace-free, the placeholder of a
/// different brace-free name occurs nowhere unless it occurs in `rest`.
pub proof fn lemma_no_placeholder_in_segment(
    a: Seq<char>,
    m: Seq<char>,
    rest: Seq<char>,
    name: Seq<char>,
)
    requires
        no_brace(a),
        no_brace(m),
        no_brace(name),
        m != name,
        !contains_seq(rest, spec_placeholder(name)),
    ensures
        !contains_seq(a + spec_placeholder(m) + rest, spec_placeholder(name)),
{
    let phm = spec_placeholder(m);
    let pat = spec_placeholder(name);
    let s = a + phm + rest;
    assert(phm.len() == m.len() + 4);
    assert(pat.len() == name.len() + 4);
    assert(pat[0] == '{');
    assert(pat[1] == '{');
    assert forall|i: int| !contains_at(s, pat, i) by {
        if contains_at(s, pat, i) {
            let sub = s.subrange(i, i + pat.len());
            assert(forall|t: int| 0 <= t < pat.len() ==> #[trigger] sub[t] == s[i + t]);
            let off = a.len() as int;
            if i < off {
                assert(s[i] == a[i]);
                assert(sub[0] == s[i]);
                assert(false);
            } else if i >= off + phm.len() {
                let j = i - off - phm.len();
                assert(rest.subrange(j, j + pat.len()) =~= sub);
                assert(contains_at(rest, pat, j));
                assert(false);
            } else {
                let k = i - off;
                if k == 0 {
                    if m.len() == name.len() {
                        assert forall|t: int| 0 <= t < m.len() implies m[t] == name[t] by {
                            assert(s[off + 2 + t] == phm[2 + t]);
                            assert(phm[2 + t] == m[t]);
                            assert(sub[2 + t] == s[i + 2 + t]);
                            assert(pat[2 + t] == name[t]);
                        }
                        assert(m =~= name);
                        assert(false);
                    } else if m.len() < name.len() {
                        let t = 2 + m.len() as int;
                        assert(s[i + t] == phm[t]);
                        assert(phm[t] == '}');
                        assert(sub[t] == s[i + t]);
                        assert(pat[t] == name[t - 2]);
                        assert(false);
                    } else {
                        let t = 2 + name.len() as int;
                        assert(pat[t] == '}');
                        assert(s[i + t] == phm[t]);
                        assert(phm[t] == m[t - 2]);
                        assert(sub[t] == s[i + t]);
                        assert(false);
                    }
                } else if k == 1 {
                    assert(s[i + 1] == phm[2]);
                    if m.len() == 0 {
                        assert(phm[2] == '}');
                    } else {
                        assert(phm[2] == m[0]);
                    }
                    assert(sub[1] == s[i + 1]);
                    assert(false);
                } else if k < 2 + m.len() {
                    assert(s[i] == phm[k]);
                    assert(phm[k] == m[k - 2]);
                    assert(sub[0] == s[i]);
                    assert(false);
                } else {
                    assert(s[i] == phm[k]);
                    assert(phm[k] == '}');
                    assert(sub[0] == s[i]);
                    assert(false);
                }
            }
        }
    }
}

/// Every element of a sequence of texts is brace-free.
pub open spec fn all_no_brace(ss: Seq<Seq<char>>) -> bool {
    forall|i: int| 0 <= i < ss.len() ==> no_brace(#[trigger] ss[i])
}

/// A template written as text segments with one placeholder between each
/// neighbouring pair: `segs[0] {{names[0]}} segs[1] {{names[1]}} ... segs[n]`.
pub open spec fn interleave_template(segs: Seq<Seq<char>>, names: Seq<Seq<char>>) -> Seq<char>
    decreases names.len(),
{
    if names.len() == 0 {
        if segs.len() > 0 {
            segs[0]
        } else {
            Seq::<char>::empty()
        }
    } else {
        segs[0] + spec_placeholder(names[0]) + interleave_template(
            segs.drop_first(),
            names.drop_first(),
        )
    }
}

/// The same shape with values in place of the placeholders.
pub open spec fn interleave_filled(segs: Seq<Seq<char>>, vals: Seq<Seq<char>>) -> Seq<char>
    decreases vals.len(),
{
    if vals.len() == 0 {
        if segs.len() > 0 {
            segs[0]
        } else {
            Seq::<char>::empty()
        }
    } else {
        segs[0] + vals[0] + interleave_filled(segs.drop_first(), vals.drop_first())
    }
}

/// A template over brace-free segments holds no placeholder of a name that is
/// not among its own.
pub proof fn lemma_template_no_placeholder(
    segs: Seq<Seq<char>>,
    names: Seq<Seq<char>>,
    name: Seq<char>,
)
    requires
        segs.len() == names.len() + 1,
        all_no_brace(segs),
        all_no_brace(names),
        no_brace(name),
        forall|i: int| 0 <= i < names.len() ==> #[trigger] names[i] != name,
    ensures
        !contains_seq(interleave_template(segs, names), spec_placeholder(name)),
    decreases names.len(),
{
    if names.len() == 0 {
        lemma_no_brace_no_placeholder(segs[0], name);
    } else {
        assert(all_no_brace(segs.drop_first())) by {
            assert forall|i: int|
                0 <= i < segs.drop_first().len() implies no_brace(
                #[trigger] segs.drop_first()[i],
            ) by {
                assert(segs.drop_first()[i] == segs[i + 1]);
            }
        }
        assert(all_no_brace(names.drop_first())) by {
            assert forall|i: int|
                0 <= i < names.drop_first().len() implies no_brace(
                #[trigger] names.drop_first()[i],
            ) by {
                assert(names.drop_first()[i] == names[i + 1]);
            }
        }
        assert(forall|i: int|
            0 <= i < names.drop_first().len() ==> #[trigger] names.drop_first()[i] != name);
        lemma_template_no_placeholder(segs.drop_first(), names.drop_first(), name);
        lemma_no_placeholder_in_segment(
            segs[0],
            names[0],
            interleave_template(segs.drop_first(), names.drop_first()),
            name,
        );
    }
}

/// A filled template over brace-free segments and values is brace-free.
pub proof fn lemma_filled_no_brace(segs: Seq<Seq<char>>, vals: Seq<Seq<char>>)
    requires
        segs.len() == vals.len() + 1,
        all_no_brace(segs),
        all_no_brace(vals),
    ensures
        no_brace(interleave_filled(segs, vals)),
    decreases vals.len(),
{
    if vals.len() == 0 {
    } else {
        assert(all_no_brace(segs.drop_first())) by {
            assert forall|i: int|
                0 <= i < segs.drop_first().len() implies no_brace(
                #[trigger] segs.drop_first()[i],
            ) by {
                assert(segs.drop_first()[i] == segs[i + 1]);
            }
        }
        assert(all_no_brace(vals.drop_first())) by {
            assert forall|i: int|
                0 <= i < vals.drop_first().len() implies no_brace(
                #[trigger] vals.drop_first()[i],
            ) by {
                assert(vals.drop_first()[i] == vals[i + 1]);
            }
        }
        lemma_filled_no_brace(segs.drop_first(), vals.drop_first());
        lemma_no_brace_concat(segs[0], vals[0]);
        lemma_no_brace_concat(
            segs[0] + vals[0],
            interleave_filled(segs.drop_first(), vals.drop_first()),
        );
        assert((segs[0] + vals[0]) + interleave_filled(segs.drop_first(), vals.drop_first()) =~= segs[0]
            + vals[0] + interleave_filled(segs.drop_first(), vals.drop_first()));
    }
}

} // verus!
