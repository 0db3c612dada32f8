//! Plans: their titles, where they are taken from, and what is asked for to get one.

use vstd::prelude::*;

use crate::error::CruiseError;
use crate::metadata::{
    bullet_item, derive_session_title, digit_count, first_heading, first_markdown_heading,
    first_non_empty_plan_line, first_plan_line, heading, ordered_item, plan_line,
    read_plan_markdown, refresh_session_title_from_session, resolve_plan_content,
    strip_ordered_list_prefix, strip_plan_prefix, title_of_plan, PlanContent, PlanFile,
};
use crate::session::{SessionManager, SessionState};
use crate::text::{
    front, is_blank, is_digit, is_white_space, lines, trim, trim_end, trim_start, without_leading,
};

use super::texts::law_trimmed_texts_stay;

verus! {

// ---------------------------------------------------------------------------
// Headings
// ---------------------------------------------------------------------------

proof fn lemma_first_heading(all: Seq<Seq<char>>, i: int)
    requires
        0 <= i < all.len(),
        heading(all[i]) is Some,
        forall|j: int| 0 <= j < i ==> heading(#[trigger] all[j]) is None,
    ensures
        first_heading(all) == heading(all[i]),
    decreases all.len(),
{
    if i > 0 {
        assert(heading(all[0]) is None);
        assert forall|j: int| 0 <= j < i - 1 implies heading(
            #[trigger] all.drop_first()[j],
        ) is None by {
            assert(all.drop_first()[j] == all[j + 1]);
        }
        lemma_first_heading(all.drop_first(), i - 1);
    }
}

proof fn lemma_no_heading(all: Seq<Seq<char>>)
    ensures
        first_heading(all) is None <==> (forall|j: int|
            0 <= j < all.len() ==> heading(#[trigger] all[j]) is None),
    decreases all.len(),
{
    if all.len() > 0 {
        lemma_no_heading(all.drop_first());
        if first_heading(all) is None {
            assert forall|j: int| 0 <= j < all.len() implies heading(#[trigger] all[j]) is None by {
                if j > 0 {
                    assert(all[j] == all.drop_first()[j - 1]);
                }
            }
        } else if forall|j: int| 0 <= j < all.len() ==> heading(#[trigger] all[j]) is None {
            assert(heading(all[0]) is None);
            assert forall|j: int| 0 <= j < all.drop_first().len() implies heading(
                #[trigger] all.drop_first()[j],
            ) is None by {
                assert(all.drop_first()[j] == all[j + 1]);
            }
        }
    }
}

/// The heading of a text is that of the first of its lines that is one: no heading stands in a line
/// before it. A text has none exactly if none of its lines is one.
pub proof fn law_the_first_heading_counts(text: &str, r: Option<String>)
    requires
        call_ensures(first_markdown_heading, (text,), r),
    ensures
        forall|i: int|
            0 <= i < lines(text@).len() && heading(#[trigger] lines(text@)[i]) is Some && (forall|
                j: int,
            |
                0 <= j < i ==> heading(#[trigger] lines(text@)[j]) is None) ==> (r matches Some(h)
                && heading(lines(text@)[i]) == Some(h@)),
        r is None <==> (forall|j: int|
            0 <= j < lines(text@).len() ==> heading(#[trigger] lines(text@)[j]) is None),
{
    let all = lines(text@);
    lemma_no_heading(all);
    assert forall|i: int|
        0 <= i < all.len() && heading(#[trigger] all[i]) is Some && (forall|j: int|
            0 <= j < i ==> heading(#[trigger] all[j]) is None) implies (r matches Some(h) && heading(
        all[i],
    ) == Some(h@)) by {
        lemma_first_heading(all, i);
    }
}

proof fn lemma_trim_start_of_padded(pad: Seq<char>, s: Seq<char>)
    requires
        is_blank(pad),
    ensures
        trim_start(pad + s) == trim_start(s),
    decreases pad.len(),
{
    if pad.len() == 0 {
        assert(pad + s =~= s);
    } else {
        assert((pad + s)[0] == pad[0]);
        assert(is_white_space(pad[0]));
        assert((pad + s).drop_first() =~= pad.drop_first() + s);
        assert forall|i: int| 0 <= i < pad.drop_first().len() implies is_white_space(
            #[trigger] pad.drop_first()[i],
        ) by {
            assert(pad.drop_first()[i] == pad[i + 1]);
        }
        lemma_trim_start_of_padded(pad.drop_first(), s);
    }
}

proof fn lemma_trim_end_of_padded(s: Seq<char>, pad: Seq<char>)
    requires
        is_blank(pad),
    ensures
        trim_end(s + pad) == trim_end(s),
    decreases pad.len(),
{
    if pad.len() == 0 {
        assert(s + pad =~= s);
    } else {
        assert((s + pad).last() == pad.last());
        assert(is_white_space(pad[pad.len() - 1]));
        assert((s + pad).drop_last() =~= s + pad.drop_last());
        assert forall|i: int| 0 <= i < pad.drop_last().len() implies is_white_space(
            #[trigger] pad.drop_last()[i],
        ) by {
            assert(pad.drop_last()[i] == pad[i]);
        }
        lemma_trim_end_of_padded(s, pad.drop_last());
    }
}

/// White space around a text that neither begins nor ends with any is what trimming takes away.
pub proof fn law_padding_is_trimmed(before: Seq<char>, s: Seq<char>, after: Seq<char>)
    requires
        is_blank(before) && is_blank(after),
        s.len() > 0 ==> !is_white_space(s[0]) && !is_white_space(s.last()),
    ensures
        trim(before + s + after) == s,
{
    assert(before + s + after =~= before + (s + after));
    lemma_trim_start_of_padded(before, s + after);
    if s.len() > 0 {
        assert((s + after)[0] == s[0]);
        assert(trim_start(s + after) == s + after);
    } else {
        assert(s + after =~= after);
        assert(after + Seq::<char>::empty() =~= after);
        lemma_trim_start_of_padded(after, Seq::<char>::empty());
        assert(trim_start(Seq::<char>::empty()) == Seq::<char>::empty());
        assert(s =~= Seq::<char>::empty());
        lemma_nothing_is_trimmed();
    }
    if s.len() > 0 {
        lemma_trim_end_of_padded(s, after);
        law_trimmed_texts_stay(s);
        assert(trim_start(s) == s);
    }
}

proof fn lemma_nothing_is_trimmed()
    ensures
        trim_end(Seq::<char>::empty()) == Seq::<char>::empty(),
{
}

proof fn lemma_without_marks(marks: Seq<char>, s: Seq<char>)
    requires
        forall|i: int| 0 <= i < marks.len() ==> marks[i] == '#',
        s.len() > 0 ==> s[0] != '#',
    ensures
        without_leading(marks + s, '#') == s,
    decreases marks.len(),
{
    if marks.len() == 0 {
        assert(marks + s =~= s);
    } else {
        assert((marks + s)[0] == marks[0]);
        assert((marks + s).skip(1) =~= marks.skip(1) + s);
        lemma_without_marks(marks.skip(1), s);
    }
}

/// A heading is what follows number signs at the beginning of a line, without the white space around
/// it; where nothing follows there is none.
pub proof fn law_headings_follow_number_signs(
    before: Seq<char>,
    marks: Seq<char>,
    gap: Seq<char>,
    title: Seq<char>,
    after: Seq<char>,
)
    requires
        is_blank(before) && is_blank(gap) && is_blank(after),
        marks.len() > 0,
        forall|i: int| 0 <= i < marks.len() ==> marks[i] == '#',
        title.len() > 0,
        !is_white_space(title[0]) && !is_white_space(title.last()) && title[0] != '#',
    ensures
        heading(before + marks + gap + title + after) == Some(title),
        heading(before + marks + after) is None,
{
    let core = marks + gap + title;
    assert(before + marks + gap + title + after =~= before + core + after);
    assert(core[0] == marks[0] && core.last() == title.last());
    law_padding_is_trimmed(before, core, after);
    assert(core =~= marks + (gap + title));
    assert(gap.len() > 0 ==> is_white_space(gap[0]));
    assert((gap + title)[0] == if gap.len() > 0 { gap[0] } else { title[0] });
    lemma_without_marks(marks, gap + title);
    assert(gap + title =~= gap + title + Seq::<char>::empty());
    law_padding_is_trimmed(gap, title, Seq::<char>::empty());
    law_padding_is_trimmed(before, marks, after);
    assert(marks =~= marks + Seq::<char>::empty());
    lemma_without_marks(marks, Seq::<char>::empty());
    assert(trim(Seq::<char>::empty()).len() == 0);
}

/// A line that begins with anything but a number sign is no heading, and neither is a blank one.
pub proof fn law_other_lines_are_no_headings(before: Seq<char>, s: Seq<char>)
    requires
        is_blank(before),
        s.len() > 0 ==> !is_white_space(s[0]) && s[0] != '#',
    ensures
        heading(before + s) is None,
{
    lemma_trim_start_of_padded(before, s);
    assert(trim_start(s) == s);
    lemma_trim_end_keeps_the_beginning(s);
}

proof fn lemma_trim_end_keeps_the_beginning(s: Seq<char>)
    ensures
        trim_end(s).len() <= s.len(),
        trim_end(s).len() > 0 ==> trim_end(s)[0] == s[0],
    decreases s.len(),
{
    if s.len() > 0 && is_white_space(s.last()) {
        lemma_trim_end_keeps_the_beginning(s.drop_last());
    }
}

// ---------------------------------------------------------------------------
// Lines
// ---------------------------------------------------------------------------

proof fn lemma_first_plan_line(all: Seq<Seq<char>>, i: int)
    requires
        0 <= i < all.len(),
        plan_line(all[i]).len() > 0,
        forall|j: int| 0 <= j < i ==> plan_line(#[trigger] all[j]).len() == 0,
    ensures
        first_plan_line(all) == Some(plan_line(all[i])),
    decreases all.len(),
{
    if i > 0 {
        assert(plan_line(all[0]).len() == 0);
        assert forall|j: int| 0 <= j < i - 1 implies plan_line(
            #[trigger] all.drop_first()[j],
        ).len() == 0 by {
            assert(all.drop_first()[j] == all[j + 1]);
        }
        lemma_first_plan_line(all.drop_first(), i - 1);
    }
}

proof fn lemma_no_plan_line(all: Seq<Seq<char>>)
    ensures
        first_plan_line(all) is None <==> (forall|j: int|
            0 <= j < all.len() ==> plan_line(#[trigger] all[j]).len() == 0),
    decreases all.len(),
{
    if all.len() > 0 {
        lemma_no_plan_line(all.drop_first());
        if first_plan_line(all) is None {
            assert forall|j: int| 0 <= j < all.len() implies plan_line(
                #[trigger] all[j],
            ).len() == 0 by {
                if j > 0 {
                    assert(all[j] == all.drop_first()[j - 1]);
                }
            }
        } else if forall|j: int| 0 <= j < all.len() ==> plan_line(#[trigger] all[j]).len() == 0 {
            assert(plan_line(all[0]).len() == 0);
            assert forall|j: int| 0 <= j < all.drop_first().len() implies plan_line(
                #[trigger] all.drop_first()[j],
            ).len() == 0 by {
                assert(all.drop_first()[j] == all[j + 1]);
            }
        }
    }
}

/// Of the lines of a plan the first one that holds anything counts; there is none exactly if no line
/// holds anything.
pub proof fn law_the_first_line_that_holds_anything_counts(text: &str, r: Option<String>)
    requires
        call_ensures(first_non_empty_plan_line, (text,), r),
    ensures
        forall|i: int|
            0 <= i < lines(text@).len() && plan_line(#[trigger] lines(text@)[i]).len() > 0 && (
            forall|j: int| 0 <= j < i ==> plan_line(#[trigger] lines(text@)[j]).len() == 0) ==> (
            r matches Some(l) && l@ == plan_line(lines(text@)[i])),
        r is None <==> (forall|j: int|
            0 <= j < lines(text@).len() ==> plan_line(#[trigger] lines(text@)[j]).len() == 0),
{
    let all = lines(text@);
    lemma_no_plan_line(all);
    assert forall|i: int|
        0 <= i < all.len() && plan_line(#[trigger] all[i]).len() > 0 && (forall|j: int|
            0 <= j < i ==> plan_line(#[trigger] all[j]).len() == 0) implies (r matches Some(l)
        && l@ == plan_line(all[i])) by {
        lemma_first_plan_line(all, i);
    }
}

proof fn lemma_digits_in_front(digits: Seq<char>, rest: Seq<char>)
    requires
        forall|i: int| 0 <= i < digits.len() ==> is_digit(#[trigger] digits[i]),
        rest.len() > 0 ==> !is_digit(rest[0]),
    ensures
        digit_count(digits + rest) == digits.len(),
    decreases digits.len(),
{
    if digits.len() == 0 {
        assert(digits + rest =~= rest);
    } else {
        assert((digits + rest)[0] == digits[0]);
        assert((digits + rest).skip(1) =~= digits.skip(1) + rest);
        assert forall|i: int| 0 <= i < digits.skip(1).len() implies is_digit(
            #[trigger] digits.skip(1)[i],
        ) by {
            assert(digits.skip(1)[i] == digits[i + 1]);
        }
        lemma_digits_in_front(digits.skip(1), rest);
    }
}

/// The number of an item is digits, a full stop and a blank; what follows is the item. Without a
/// digit in front there is none.
pub proof fn law_items_follow_their_number(
    line: &str,
    digits: Seq<char>,
    item: Seq<char>,
    r: Option<String>,
)
    requires
        call_ensures(strip_ordered_list_prefix, (line,), r),
        forall|i: int| 0 <= i < digits.len() ==> is_digit(#[trigger] digits[i]),
        line@ == digits + seq!['.', ' '] + item,
    ensures
        digits.len() > 0 ==> (r matches Some(t) && t@ == trim(item)),
        digits.len() == 0 ==> r is None,
{
    reveal_strlit(". ");
    let rest = seq!['.', ' '] + item;
    assert(line@ =~= digits + rest);
    lemma_digits_in_front(digits, rest);
    assert(line@.skip(digits.len() as int) =~= rest);
    assert(rest.subrange(0, 2) =~= ". "@);
    assert(rest.skip(2) =~= item);
}

/// A line of a plan loses the mark of a list, `-`, `*` or `+` with a blank behind it, and then the
/// number of an item; a line without either is only trimmed.
pub proof fn law_plan_lines_lose_their_mark(line: &str, mark: char, item: Seq<char>, r: String)
    requires
        call_ensures(strip_plan_prefix, (line,), r),
        mark == '-' || mark == '*' || mark == '+',
        line@ == seq![mark, ' '] + item,
        item.len() > 0 && !is_white_space(item[0]) && !is_white_space(item.last()),
        !is_digit(item[0]),
    ensures
        r@ == item,
{
    reveal_strlit("- ");
    reveal_strlit("* ");
    reveal_strlit("+ ");
    let t = line@;
    assert(t[0] == mark && t.last() == item.last());
    law_trimmed_texts_stay(t);
    assert(t.subrange(0, 2)[0] == mark);
    assert(mark == '-' ==> t.subrange(0, 2) =~= "- "@);
    assert(mark == '*' ==> t.subrange(0, 2) =~= "* "@);
    assert(mark == '+' ==> t.subrange(0, 2) =~= "+ "@);
    assert(t.skip(2) =~= item);
    assert(bullet_item(t) == item);
    assert(digit_count(item) == 0);
    law_trimmed_texts_stay(item);
}

/// A line of a plan without a mark or a number in front is only trimmed.
pub proof fn law_plain_plan_lines_are_kept(line: &str, r: String)
    requires
        call_ensures(strip_plan_prefix, (line,), r),
        line@.len() > 0 && !is_white_space(line@[0]) && !is_white_space(line@.last()),
        line@[0] != '-' && line@[0] != '*' && line@[0] != '+' && !is_digit(line@[0]),
    ensures
        r@ == line@,
{
    reveal_strlit("- ");
    reveal_strlit("* ");
    reveal_strlit("+ ");
    let t = line@;
    law_trimmed_texts_stay(t);
    if t.len() >= 2 {
        assert(t.subrange(0, 2)[0] == t[0]);
    }
    assert(bullet_item(t) == t);
    assert(digit_count(t) == 0);
}

// ---------------------------------------------------------------------------
// Titles
// ---------------------------------------------------------------------------

proof fn lemma_short_title(s: Seq<char>)
    requires
        s.len() <= 80,
        s.len() > 0 ==> !is_white_space(s[0]) && !is_white_space(s.last()),
    ensures
        trim(front(s, 80)) == s,
{
    law_trimmed_texts_stay(s);
}

proof fn lemma_trimmed_ends(s: Seq<char>)
    ensures
        trim(s).len() > 0 ==> !is_white_space(trim(s)[0]) && !is_white_space(trim(s).last()),
{
    super::texts::law_trimming_takes_the_white_space_around(s);
}

proof fn lemma_heading_is_trimmed(all: Seq<Seq<char>>)
    ensures
        first_heading(all) matches Some(h) ==> h.len() > 0 && !is_white_space(h[0])
            && !is_white_space(h.last()),
    decreases all.len(),
{
    if all.len() > 0 {
        lemma_trimmed_ends(without_leading(trim(all[0]), '#'));
        lemma_heading_is_trimmed(all.drop_first());
    }
}

proof fn lemma_plan_line_is_trimmed(all: Seq<Seq<char>>)
    ensures
        first_plan_line(all) matches Some(l) ==> l.len() > 0 && !is_white_space(l[0])
            && !is_white_space(l.last()),
    decreases all.len(),
{
    if all.len() > 0 {
        let u = bullet_item(trim(all[0]));
        lemma_trimmed_ends(
            match ordered_item(u) {
                Some(rest) => rest,
                None => u,
            },
        );
        lemma_plan_line_is_trimmed(all.drop_first());
    }
}

/// A session is called by the first heading of its plan, or else by its first line that holds
/// anything, or else `Session`; of a longer text its beginning is taken, at most eighty characters.
pub proof fn law_sessions_are_called_by_their_plan(
    plan: &str,
    h: Option<String>,
    l: Option<String>,
    r: String,
)
    requires
        call_ensures(first_markdown_heading, (plan,), h),
        call_ensures(first_non_empty_plan_line, (plan,), l),
        call_ensures(derive_session_title, (plan,), r),
    ensures
        h matches Some(t) ==> (t@.len() <= 80 ==> r@ == t@),
        h is None ==> (l matches Some(t) ==> (t@.len() <= 80 ==> r@ == t@)),
        h is None && l is None ==> r@ == "Session"@,
        r@.len() <= 80,
        h matches Some(t) ==> r@.len() <= t@.len() && r@ == t@.take(r@.len() as int),
        h is None ==> (l matches Some(t) ==> r@.len() <= t@.len() && r@ == t@.take(
            r@.len() as int,
        )),
        h matches Some(t) ==> (t@.len() > 80 && !is_white_space(t@[79]) ==> r@.len() == 80),
{
    let all = lines(plan@);
    lemma_heading_is_trimmed(all);
    lemma_plan_line_is_trimmed(all);
    crate::metadata::law_title_is_short_and_not_empty(plan@);
    reveal_strlit("Session");
    lemma_short_title_beginning("Session"@);
    if h is Some {
        lemma_short_title_beginning(h->0@);
    } else if l is Some {
        lemma_short_title_beginning(l->0@);
    }
}

proof fn lemma_short_title_beginning(s: Seq<char>)
    requires
        s.len() > 0 && !is_white_space(s[0]) && !is_white_space(s.last()),
    ensures
        s.len() <= 80 ==> trim(front(s, 80)) == s,
        trim(front(s, 80)).len() <= s.len(),
        trim(front(s, 80)) == s.take(trim(front(s, 80)).len() as int),
        s.len() > 80 && !is_white_space(s[79]) ==> trim(front(s, 80)).len() == 80,
{
    let f = front(s, 80);
    if s.len() <= 80 {
        lemma_short_title(s);
        assert(s.take(s.len() as int) =~= s);
    } else {
        assert(f == s.take(80));
        assert(f[0] == s[0]);
        assert(trim_start(f) == f);
        lemma_trim_end_is_a_beginning(f);
        assert(trim(f) =~= s.take(trim(f).len() as int));
        assert(f.last() == s[79]);
    }
}

proof fn lemma_trim_end_is_a_beginning(s: Seq<char>)
    ensures
        trim_end(s).len() <= s.len(),
        trim_end(s) == s.take(trim_end(s).len() as int),
    decreases s.len(),
{
    if s.len() > 0 && is_white_space(s.last()) {
        lemma_trim_end_is_a_beginning(s.drop_last());
        assert(s.take(trim_end(s).len() as int) =~= s.drop_last().take(trim_end(s).len() as int));
    } else {
        assert(s.take(s.len() as int) =~= s);
    }
}

/// A session gets the title that its plan file gives it, and loses nothing else; where there is no
/// plan it stays as it is.
pub proof fn law_titles_are_taken_from_the_plan_file(
    manager: &SessionManager,
    session: &mut SessionState,
    read: Result<String, String>,
    r: Result<(), CruiseError>,
)
    requires
        call_ensures(refresh_session_title_from_session, (manager, session, read), r),
    ensures
        r is Ok <==> (read matches Ok(text) && !is_blank(text@)),
        r is Err ==> *final(session) == *old(session),
        read matches Ok(text) ==> (!is_blank(text@) ==> (final(session).title matches Some(t)
            && t@ == title_of_plan(text@))),
        *final(session) == (SessionState { title: final(session).title, ..*old(session) }),
{
}

// ---------------------------------------------------------------------------
// Where plans are taken from
// ---------------------------------------------------------------------------

/// A plan is taken from the plan file, or else from what was written to the standard output, or else
/// from the standard error; blank texts are passed over. Only what was not in the file is written to
/// it. A file that could not be read is an error whatever else there is.
pub proof fn law_plans_are_looked_for_in_order(
    path: &str,
    file: PlanFile,
    stdout: &str,
    stderr: &str,
    r: Result<PlanContent, CruiseError>,
)
    requires
        call_ensures(resolve_plan_content, (path, file, stdout, stderr), r),
    ensures
        file is Failed ==> r is Err,
        file matches PlanFile::Content(text) ==> (!is_blank(text@) ==> (r matches Ok(plan)
            && plan.content@ == text@ && !plan.write)),
        file is NotFound || (file matches PlanFile::Content(text) && is_blank(text@)) ==> {
            &&& !is_blank(stdout@) ==> (r matches Ok(plan) && plan.content@ == stdout@ && plan.write)
            &&& is_blank(stdout@) && !is_blank(stderr@) ==> (r matches Ok(plan) && plan.content@
                == stderr@ && plan.write)
            &&& is_blank(stdout@) && is_blank(stderr@) ==> r is Err
        },
{
}

/// A plan that was read is handed on as it is, unless it is blank.
pub proof fn law_blank_plans_are_refused(
    path: &str,
    read: Result<String, String>,
    r: Result<String, CruiseError>,
)
    requires
        call_ensures(read_plan_markdown, (path, read), r),
    ensures
        r is Ok <==> (read matches Ok(text) && !is_blank(text@)),
        r matches Ok(plan) ==> read == Ok::<String, String>(plan),
{
}

} // verus!
