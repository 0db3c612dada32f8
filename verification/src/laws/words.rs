//! Words, pieces, numbers and the order of texts.

use vstd::prelude::*;

use crate::text::{
    before, begins, decimal_of, ends, has, is_blank, is_white_space, join, joined, matches_at,
    parse_number, split, split_from, split_on, text_lt, views, words, words_from, words_of,
};

verus! {

// ---------------------------------------------------------------------------
// Parts of texts
// ---------------------------------------------------------------------------

/// A text begins with another one if something can be put behind that to make it up, and ends with
/// another one if something can be put before that.
pub proof fn law_texts_begin_and_end(
    s: &str,
    pat: &str,
    rest: Seq<char>,
    at_front: bool,
    at_end: bool,
)
    requires
        call_ensures(begins, (s, pat), at_front),
        call_ensures(ends, (s, pat), at_end),
    ensures
        s@ == pat@ + rest ==> at_front,
        s@ == rest + pat@ ==> at_end,
        at_front ==> s@ == pat@ + s@.skip(pat@.len() as int),
        at_end ==> s@ == s@.take(s@.len() - pat@.len()) + pat@,
{
    let n = pat@.len() as int;
    if s@ == pat@ + rest {
        assert(s@.subrange(0, n) =~= pat@);
    }
    if s@ == rest + pat@ {
        assert(s@.subrange(s@.len() - n, s@.len() as int) =~= pat@);
    }
    if at_front {
        assert(s@ =~= s@.subrange(0, n) + s@.skip(n));
    }
    if at_end {
        assert(s@ =~= s@.take(s@.len() - n) + s@.subrange(s@.len() - n, s@.len() as int));
    }
}

/// A text holds another one if that stands somewhere in it.
pub proof fn law_texts_hold_what_stands_in_them(
    a: Seq<char>,
    b: Seq<char>,
    s: &str,
    pat: &str,
    r: bool,
)
    requires
        call_ensures(has, (s, pat), r),
    ensures
        s@ == a + pat@ + b ==> r,
        r ==> exists|i: int|
            0 <= i && i + pat@.len() <= s@.len() && #[trigger] s@.subrange(i, i + pat@.len()) == pat@,
{
    if s@ == a + pat@ + b {
        let i = a.len() as int;
        assert(s@.subrange(i, i + pat@.len()) =~= pat@);
        assert(matches_at(s@, pat@, i));
    }
    if r {
        let i = choose|i: int| matches_at(s@, pat@, i);
        assert(s@.subrange(i, i + pat@.len()) == pat@);
    }
}

// ---------------------------------------------------------------------------
// Words and pieces
// ---------------------------------------------------------------------------

proof fn lemma_words_from(a: Seq<char>, c: char, b: Seq<char>, cur: Seq<char>)
    requires
        is_white_space(c),
    ensures
        words_from(a + seq![c] + b, cur) == words_from(a, cur) + words(b),
    decreases a.len(),
{
    let s = a + seq![c] + b;
    if a.len() == 0 {
        assert(s[0] == c);
        assert(s.skip(1) =~= b);
        assert(Seq::<Seq<char>>::empty() + words(b) =~= words(b));
    } else {
        assert(s[0] == a[0]);
        assert(s.skip(1) =~= a.skip(1) + seq![c] + b);
        if is_white_space(a[0]) {
            lemma_words_from(a.skip(1), c, b, seq![]);
            if cur.len() > 0 {
                assert(seq![cur] + (words_from(a.skip(1), seq![]) + words(b)) =~= seq![cur]
                    + words_from(a.skip(1), seq![]) + words(b));
            }
        } else {
            lemma_words_from(a.skip(1), c, b, cur.push(a[0]));
        }
    }
}

proof fn lemma_one_word(a: Seq<char>, cur: Seq<char>)
    requires
        forall|i: int| 0 <= i < a.len() ==> !is_white_space(#[trigger] a[i]),
        a.len() + cur.len() > 0,
    ensures
        words_from(a, cur) == seq![cur + a],
    decreases a.len(),
{
    if a.len() == 0 {
        assert(cur + a =~= cur);
    } else {
        assert(!is_white_space(a[0]));
        assert forall|i: int| 0 <= i < a.skip(1).len() implies !is_white_space(
            #[trigger] a.skip(1)[i],
        ) by {
            assert(a.skip(1)[i] == a[i + 1]);
        }
        lemma_one_word(a.skip(1), cur.push(a[0]));
        assert(cur.push(a[0]) + a.skip(1) =~= cur + a);
    }
}

/// White space parts words, and nothing else does: the words of two texts with white space between
/// them are those of the first and then those of the second; a text without any is one word.
pub proof fn law_words_are_parted_by_white_space(
    a: Seq<char>,
    c: char,
    b: Seq<char>,
    s: &str,
    r: Vec<String>,
)
    requires
        call_ensures(words_of, (s,), r),
    ensures
        is_white_space(c) && s@ == a + seq![c] + b ==> views(r@) == words(a) + words(b),
        s@.len() > 0 && (forall|i: int| 0 <= i < s@.len() ==> !is_white_space(#[trigger] s@[i]))
            ==> views(r@) == seq![s@],
        s@.len() == 0 ==> r@.len() == 0,
{
    assert(views(r@).len() == r@.len());
    if is_white_space(c) {
        lemma_words_from(a, c, b, seq![]);
    }
    if s@.len() > 0 && (forall|i: int| 0 <= i < s@.len() ==> !is_white_space(#[trigger] s@[i])) {
        lemma_one_word(s@, seq![]);
        assert(Seq::<char>::empty() + s@ =~= s@);
    }
}

pub proof fn lemma_split_from(a: Seq<char>, sep: char, b: Seq<char>, cur: Seq<char>)
    ensures
        split_from(a + seq![sep] + b, sep, cur) == split_from(a, sep, cur) + split(b, sep),
    decreases a.len(),
{
    let s = a + seq![sep] + b;
    if a.len() == 0 {
        assert(s[0] == sep);
        assert(s.skip(1) =~= b);
    } else {
        assert(s[0] == a[0]);
        assert(s.skip(1) =~= a.skip(1) + seq![sep] + b);
        if a[0] == sep {
            lemma_split_from(a.skip(1), sep, b, seq![]);
            assert(seq![cur] + (split_from(a.skip(1), sep, seq![]) + split(b, sep)) =~= seq![cur]
                + split_from(a.skip(1), sep, seq![]) + split(b, sep));
        } else {
            lemma_split_from(a.skip(1), sep, b, cur.push(a[0]));
        }
    }
}

/// A separator parts pieces: the pieces of two texts with one between them are those of the first and
/// then those of the second; a text without any is one piece.
pub proof fn law_pieces_are_parted_by_separators(
    a: Seq<char>,
    b: Seq<char>,
    s: &str,
    sep: char,
    r: Vec<String>,
)
    requires
        call_ensures(split_on, (s, sep), r),
    ensures
        s@ == a + seq![sep] + b ==> views(r@) == split(a, sep) + split(b, sep),
        (forall|i: int| 0 <= i < s@.len() ==> s@[i] != sep) ==> views(r@) == seq![s@],
{
    if s@ == a + seq![sep] + b {
        lemma_split_from(a, sep, b, seq![]);
    }
    if forall|i: int| 0 <= i < s@.len() ==> s@[i] != sep {
        crate::text::lemma_split_first(s@, sep, s@);
    }
}

/// Texts are joined with the separator between each two of them, and nowhere else.
pub proof fn law_joined_texts_have_separators_between(
    parts: &Vec<String>,
    sep: &str,
    r: String,
)
    requires
        call_ensures(joined, (parts, sep), r),
    ensures
        parts@.len() == 0 ==> r@.len() == 0,
        parts@.len() == 1 ==> r@ == parts@[0]@,
        parts@.len() == 2 ==> r@ == parts@[0]@ + sep@ + parts@[1]@,
        parts@.len() > 1 ==> r@ == join(views(parts@).drop_last(), sep@) + sep@ + parts@.last()@,
{
    let all = views(parts@);
    assert(all.len() == parts@.len());
    if parts@.len() > 0 {
        assert(all.last() == parts@.last()@);
        assert(all[0] == parts@[0]@);
    }
    if parts@.len() == 2 {
        assert(all.drop_last().len() == 1);
        assert(all.drop_last()[0] == parts@[0]@);
        assert(join(all.drop_last(), sep@) == parts@[0]@);
        assert(all[1] == parts@[1]@);
    }
}

// ---------------------------------------------------------------------------
// Numbers and order
// ---------------------------------------------------------------------------

/// A number that is written in decimal is read as that number, and not if it is greater than it may
/// be; a text without digits is no number.
pub proof fn law_numbers_are_read_back(n: u64, max: u64, text: String, s: &str, r: Option<u64>)
    requires
        call_ensures(decimal_of, (n,), text),
        s@ == text@,
        call_ensures(parse_number, (s, max), r),
    ensures
        n <= max ==> r == Some(n),
        n > max ==> r is None,
{
    crate::text::lemma_decimal(n as nat);
}

proof fn lemma_common_beginning(p: Seq<char>, a: Seq<char>, b: Seq<char>)
    ensures
        text_lt(p + a, p + b) == text_lt(a, b),
    decreases p.len(),
{
    if p.len() == 0 {
        assert(p + a =~= a);
        assert(p + b =~= b);
    } else {
        lemma_common_beginning(p.drop_first(), a, b);
        assert((p + a).drop_first() =~= p.drop_first() + a);
        assert((p + b).drop_first() =~= p.drop_first() + b);
        assert((p + a).skip(1) =~= p.skip(1) + a);
        assert((p + b).skip(1) =~= p.skip(1) + b);
        assert(p.skip(1) =~= p.drop_first());
    }
}

/// Of two texts the one comes first that has the smaller character where they first differ, and one
/// comes before all that go on from it.
pub proof fn law_texts_come_in_the_order_of_their_characters(
    p: Seq<char>,
    x: char,
    y: char,
    a: Seq<char>,
    b: Seq<char>,
    s: &str,
    t: &str,
    r: bool,
)
    requires
        call_ensures(before, (s, t), r),
    ensures
        s@ == p + (seq![x] + a) && t@ == p + (seq![y] + b) && x != y ==> (r <==> x < y),
        t@ == s@ + a ==> (r <==> a.len() > 0),
        s@ == t@ + a ==> !r,
{
    if x != y {
        lemma_common_beginning(p, seq![x] + a, seq![y] + b);
        assert((seq![x] + a)[0] == x && (seq![y] + b)[0] == y);
    }
    let none = Seq::<char>::empty();
    assert(s@ + none =~= s@);
    assert(t@ + none =~= t@);
    lemma_common_beginning(s@, none, a);
    lemma_common_beginning(t@, a, none);
}

/// A text is blank exactly if it has no words.
pub proof fn law_blank_texts_have_no_words(s: Seq<char>)
    ensures
        is_blank(s) <==> words(s).len() == 0,
{
    lemma_blank_from(s, seq![]);
}

proof fn lemma_blank_from(s: Seq<char>, cur: Seq<char>)
    ensures
        words_from(s, cur).len() == 0 <==> is_blank(s) && cur.len() == 0,
    decreases s.len(),
{
    if s.len() > 0 {
        let rest = s.skip(1);
        if is_white_space(s[0]) {
            lemma_blank_from(rest, seq![]);
        } else {
            lemma_blank_from(rest, cur.push(s[0]));
        }
        if is_blank(rest) && is_white_space(s[0]) {
            assert forall|i: int| 0 <= i < s.len() implies is_white_space(#[trigger] s[i]) by {
                if i > 0 {
                    assert(s[i] == rest[i - 1]);
                }
            }
        }
        if is_blank(s) {
            assert(is_white_space(s[0]));
            assert forall|i: int| 0 <= i < rest.len() implies is_white_space(#[trigger] rest[i]) by {
                assert(rest[i] == s[i + 1]);
            }
        }
    }
}

} // verus!
