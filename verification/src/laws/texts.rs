//! What is done to texts.

use vstd::prelude::*;

use crate::text::{
    is_blank, is_white_space, lines, lines_from, lines_of, matches_at, replace, replaced, strip_cr,
    trim, trim_end, trim_start, trimmed, views,
};

verus! {

proof fn lemma_trim_start(s: Seq<char>)
    ensures
        trim_start(s).len() <= s.len(),
        trim_start(s) == s.skip(s.len() - trim_start(s).len()),
        is_blank(s.take(s.len() - trim_start(s).len())),
        trim_start(s).len() > 0 ==> !is_white_space(trim_start(s)[0]),
    decreases s.len(),
{
    if s.len() > 0 && is_white_space(s[0]) {
        let rest = s.drop_first();
        lemma_trim_start(rest);
        let n = s.len() - trim_start(s).len();
        assert(s.skip(n) =~= rest.skip(n - 1));
        assert forall|i: int| 0 <= i < n implies is_white_space(#[trigger] s.take(n)[i]) by {
            if i > 0 {
                assert(s.take(n)[i] == rest.take(n - 1)[i - 1]);
            }
        }
    } else {
        assert(s.skip(0) =~= s);
    }
}

proof fn lemma_trim_end(s: Seq<char>)
    ensures
        trim_end(s).len() <= s.len(),
        trim_end(s) == s.take(trim_end(s).len() as int),
        is_blank(s.skip(trim_end(s).len() as int)),
        trim_end(s).len() > 0 ==> !is_white_space(trim_end(s).last()),
    decreases s.len(),
{
    if s.len() > 0 && is_white_space(s.last()) {
        let rest = s.drop_last();
        lemma_trim_end(rest);
        let n = trim_end(s).len() as int;
        assert(s.take(n) =~= rest.take(n));
        assert forall|i: int| 0 <= i < s.skip(n).len() implies is_white_space(
            #[trigger] s.skip(n)[i],
        ) by {
            if i + n < rest.len() {
                assert(s.skip(n)[i] == rest.skip(n)[i]);
            }
        }
    } else {
        assert(s.take(s.len() as int) =~= s);
    }
}

/// What is trimmed is white space before and after, and all of it; the rest is kept.
pub proof fn law_trimming_takes_the_white_space_around(s: Seq<char>)
    ensures
        exists|a: int, b: int|
            #![trigger s.subrange(a, b)]
            {
                &&& 0 <= a <= b <= s.len()
                &&& trim(s) == s.subrange(a, b)
                &&& is_blank(s.subrange(0, a))
                &&& is_blank(s.subrange(b, s.len() as int))
            },
        trim(s).len() > 0 ==> !is_white_space(trim(s)[0]) && !is_white_space(trim(s).last()),
{
    lemma_trim_start(s);
    let t = trim_start(s);
    lemma_trim_end(t);
    let a = s.len() - t.len();
    let b = a + trim(s).len();
    assert(trim(s) =~= s.subrange(a, b));
    assert(s.subrange(0, a) =~= s.take(a));
    assert(s.subrange(b, s.len() as int) =~= t.skip(trim(s).len() as int));
    if trim(s).len() > 0 {
        assert(trim(s)[0] == t[0]);
    }
}

/// A text without white space at its ends is trimmed to itself.
pub proof fn law_trimmed_texts_stay(s: Seq<char>)
    requires
        s.len() > 0 ==> !is_white_space(s[0]) && !is_white_space(s.last()),
    ensures
        trim(s) == s,
{
    assert(trim_start(s) == s);
    assert(trim_end(s) == s);
}

/// The first place at which a pattern stands is replaced, and what follows it likewise; what stands
/// before it is kept.
pub proof fn law_patterns_are_replaced(s: Seq<char>, pat: Seq<char>, with: Seq<char>, i: int)
    requires
        pat.len() > 0,
        matches_at(s, pat, i),
        forall|k: int| 0 <= k < i ==> !matches_at(s, pat, k),
    ensures
        replace(s, pat, with) == s.take(i) + with + replace(s.skip(i + pat.len()), pat, with),
    decreases s.len(),
{
    if i == 0 {
        assert(s.take(0) + with =~= with);
    } else {
        assert(!matches_at(s, pat, 0));
        let t = s.skip(1);
        assert(t.subrange(i - 1, i - 1 + pat.len()) =~= s.subrange(i, i + pat.len()));
        assert forall|k: int| 0 <= k < i - 1 implies !matches_at(t, pat, k) by {
            if matches_at(t, pat, k) {
                assert(s.subrange(k + 1, k + 1 + pat.len()) =~= t.subrange(k, k + pat.len()));
                assert(matches_at(s, pat, k + 1));
            }
        }
        law_patterns_are_replaced(t, pat, with, i - 1);
        assert(t.skip(i - 1 + pat.len()) =~= s.skip(i + pat.len()));
        assert(seq![s[0]] + t.take(i - 1) =~= s.take(i));
        let rest = replace(s.skip(i + pat.len()), pat, with);
        assert(seq![s[0]] + (t.take(i - 1) + with + rest) =~= s.take(i) + with + rest);
    }
}

/// A text in which the pattern does not stand is kept.
pub proof fn law_other_texts_are_not_replaced(s: Seq<char>, pat: Seq<char>, with: Seq<char>)
    requires
        forall|k: int| !matches_at(s, pat, k),
    ensures
        replace(s, pat, with) == s,
    decreases s.len(),
{
    if pat.len() > 0 && s.len() >= pat.len() {
        assert(!matches_at(s, pat, 0));
        let t = s.skip(1);
        assert forall|k: int| !matches_at(t, pat, k) by {
            if matches_at(t, pat, k) {
                assert(s.subrange(k + 1, k + 1 + pat.len()) =~= t.subrange(k, k + pat.len()));
                assert(matches_at(s, pat, k + 1));
            }
        }
        law_other_texts_are_not_replaced(t, pat, with);
        assert(seq![s[0]] + t =~= s);
    }
}

/// The lines of a text are what stands between its line breaks; a carriage return before one
/// belongs to it.
pub proof fn law_lines_end_at_breaks(a: Seq<char>, b: Seq<char>)
    requires
        forall|i: int| 0 <= i < a.len() ==> a[i] != '\n',
    ensures
        lines(a + seq!['\n'] + b) == seq![strip_cr(a)] + lines(b),
        a.len() > 0 ==> lines(a) == seq![a],
        lines(Seq::<char>::empty()).len() == 0,
{
    lemma_lines_from(a, seq!['\n'] + b, seq![]);
    lemma_lines_from(a, seq![], seq![]);
    assert(a + seq!['\n'] + b =~= a + (seq!['\n'] + b));
    assert((seq!['\n'] + b).skip(1) =~= b);
    assert(Seq::<char>::empty() + a =~= a);
    assert(a + Seq::<char>::empty() =~= a);
}

proof fn lemma_lines_from(a: Seq<char>, rest: Seq<char>, cur: Seq<char>)
    requires
        forall|i: int| 0 <= i < a.len() ==> a[i] != '\n',
    ensures
        lines_from(a + rest, cur) == lines_from(rest, cur + a),
    decreases a.len(),
{
    if a.len() == 0 {
        assert(a + rest =~= rest);
        assert(cur + a =~= cur);
    } else {
        assert((a + rest).skip(1) =~= a.skip(1) + rest);
        lemma_lines_from(a.skip(1), rest, cur.push(a[0]));
        assert(cur.push(a[0]) + a.skip(1) =~= cur + a);
    }
}

/// What is called a trimmed text, a replaced one and the lines of one is just that.
pub proof fn law_texts_are_as_stated(
    s: &str,
    pat: &str,
    with: &str,
    t: String,
    u: String,
    l: Vec<String>,
)
    requires
        call_ensures(trimmed, (s,), t),
        call_ensures(replaced, (s, pat, with), u),
        call_ensures(lines_of, (s,), l),
    ensures
        t@ == trim(s@),
        u@ == replace(s@, pat@, with@),
        views(l@) == lines(s@),
{
}

} // verus!
