//! Titles of sessions and plans, and texts with a title in front.

use vstd::prelude::*;

use crate::error::CruiseError;
use crate::session::{SessionManager, SessionState};
use crate::text::{
    after_prefix, begins, blank, chars_of, find_first, first_at, front, front_of, is_blank,
    is_digit, lemma_first_at, lemma_trim_blank, lines, lines_of, matches_at, opt_view, string_of,
    strip_leading, strip_prefix, trim, trim_end, trim_start, trimmed, views, without_leading,
};

verus! {

/// The greatest number of characters of a session title.
pub const MAX_SESSION_TITLE_CHARS: usize = 80;

// ---------------------------------------------------------------------------
// Titles from plans
// ---------------------------------------------------------------------------

/// The heading in a line of Markdown.
pub open spec fn heading(line: Seq<char>) -> Option<Seq<char>> {
    let t = trim(line);
    if t.len() > 0 && t[0] == '#' {
        let h = trim(without_leading(t, '#'));
        if h.len() > 0 {
            Some(h)
        } else {
            None
        }
    } else {
        None
    }
}

/// The first heading in lines of Markdown.
pub open spec fn first_heading(all: Seq<Seq<char>>) -> Option<Seq<char>>
    decreases all.len(),
{
    if all.len() == 0 {
        None
    } else {
        match heading(all[0]) {
            Some(h) => Some(h),
            None => first_heading(all.drop_first()),
        }
    }
}

/// The number of decimal digits at the beginning of `s`.
pub open spec fn digit_count(s: Seq<char>) -> int
    decreases s.len(),
{
    if s.len() > 0 && is_digit(s[0]) {
        1 + digit_count(s.skip(1))
    } else {
        0
    }
}

/// What follows the number of an item in an ordered list.
pub open spec fn ordered_item(line: Seq<char>) -> Option<Seq<char>> {
    let n = digit_count(line);
    if n == 0 {
        None
    } else {
        match strip_prefix(line.skip(n), ". "@) {
            Some(rest) => Some(trim(rest)),
            None => None,
        }
    }
}

/// A line of a plan without the mark of a list.
pub open spec fn bullet_item(t: Seq<char>) -> Seq<char> {
    match strip_prefix(t, "- "@) {
        Some(rest) => rest,
        None => match strip_prefix(t, "* "@) {
            Some(rest) => rest,
            None => match strip_prefix(t, "+ "@) {
                Some(rest) => rest,
                None => t,
            },
        },
    }
}

/// A line of a plan without white space, the mark of a list and the number of an item.
pub open spec fn plan_line(line: Seq<char>) -> Seq<char> {
    let u = bullet_item(trim(line));
    trim(match ordered_item(u) {
        Some(rest) => rest,
        None => u,
    })
}

/// The first line of a plan that holds anything.
pub open spec fn first_plan_line(all: Seq<Seq<char>>) -> Option<Seq<char>>
    decreases all.len(),
{
    if all.len() == 0 {
        None
    } else if plan_line(all[0]).len() > 0 {
        Some(plan_line(all[0]))
    } else {
        first_plan_line(all.drop_first())
    }
}

/// What a session is called by its plan: the first heading, or else the first line that holds
/// anything, or else a word.
pub open spec fn title_candidate(plan: Seq<char>) -> Seq<char> {
    match first_heading(lines(plan)) {
        Some(h) => h,
        None => match first_plan_line(lines(plan)) {
            Some(l) => l,
            None => "Session"@,
        },
    }
}

/// The title of a session by its plan.
pub open spec fn title_of_plan(plan: Seq<char>) -> Seq<char> {
    trim(front(title_candidate(plan), MAX_SESSION_TITLE_CHARS as int))
}

fn heading_of(line: &str) -> (r: Option<String>)
    ensures
        opt_view(r) == heading(line@),
{
    let t = trimmed(line);
    proof {
        reveal_strlit("#");
        if t@.len() > 0 {
            assert(t@.subrange(0, 1)[0] == t@[0]);
            assert(t@[0] == '#' ==> t@.subrange(0, 1) =~= "#"@);
        }
    }
    if !begins(t.as_str(), "#") {
        return None;
    }
    let h = trimmed(strip_leading(t.as_str(), '#').as_str());
    if h.as_str().is_empty() {
        None
    } else {
        Some(h)
    }
}

/// The first heading in a Markdown text.
pub fn first_markdown_heading(plan_markdown: &str) -> (r: Option<String>)
    ensures
        opt_view(r) == first_heading(lines(plan_markdown@)),
{
    let all = lines_of(plan_markdown);
    let ghost ls = lines(plan_markdown@);
    let mut i: usize = 0;
    assert(all@.len() == views(all@).len());
    assert(ls.skip(0) =~= ls);
    while i < all.len()
        invariant
            i <= all@.len(),
            all@.len() == ls.len(),
            views(all@) == ls,
            first_heading(ls) == first_heading(ls.skip(i as int)),
            ls == lines(plan_markdown@),
        decreases all@.len() - i,
    {
        assert(ls[i as int] == all@[i as int]@);
        assert(ls.skip(i as int)[0] == ls[i as int]);
        assert(ls.skip(i as int).drop_first() =~= ls.skip(i + 1));
        let h = heading_of(all[i].as_str());
        if h.is_some() {
            return h;
        }
        i += 1;
    }
    None
}

/// What follows the number of an item in an ordered list.
pub fn strip_ordered_list_prefix(line: &str) -> (r: Option<String>)
    ensures
        opt_view(r) == ordered_item(line@),
{
    let v = chars_of(line);
    let mut n: usize = 0;
    assert(v@.skip(0) =~= v@);
    while n < v.len() && '0' <= v[n] && v[n] <= '9'
        invariant
            n <= v@.len(),
            v@ == line@,
            digit_count(line@) == n + digit_count(v@.skip(n as int)),
        decreases v@.len() - n,
    {
        assert(v@.skip(n as int)[0] == v@[n as int]);
        assert(v@.skip(n as int).skip(1) =~= v@.skip(n + 1));
        n += 1;
    }
    assert(n < v@.len() ==> v@.skip(n as int)[0] == v@[n as int]);
    if n == 0 {
        return None;
    }
    let rest = string_of(v.as_slice(), n, v.len());
    assert(rest@ =~= line@.skip(n as int));
    match after_prefix(rest.as_str(), ". ") {
        Some(item) => Some(trimmed(item.as_str())),
        None => None,
    }
}

/// A line of a plan without white space, the mark of a list and the number of an item.
pub fn strip_plan_prefix(line: &str) -> (r: String)
    ensures
        r@ == plan_line(line@),
{
    let t = trimmed(line);
    let u: String = match after_prefix(t.as_str(), "- ") {
        Some(rest) => rest,
        None => match after_prefix(t.as_str(), "* ") {
            Some(rest) => rest,
            None => match after_prefix(t.as_str(), "+ ") {
                Some(rest) => rest,
                None => t,
            },
        },
    };
    match strip_ordered_list_prefix(u.as_str()) {
        Some(rest) => trimmed(rest.as_str()),
        None => trimmed(u.as_str()),
    }
}

/// The first line of a plan that holds anything.
pub fn first_non_empty_plan_line(plan_markdown: &str) -> (r: Option<String>)
    ensures
        opt_view(r) == first_plan_line(lines(plan_markdown@)),
{
    let all = lines_of(plan_markdown);
    let ghost ls = lines(plan_markdown@);
    let mut i: usize = 0;
    assert(all@.len() == views(all@).len());
    assert(ls.skip(0) =~= ls);
    while i < all.len()
        invariant
            i <= all@.len(),
            all@.len() == ls.len(),
            views(all@) == ls,
            first_plan_line(ls) == first_plan_line(ls.skip(i as int)),
            ls == lines(plan_markdown@),
        decreases all@.len() - i,
    {
        assert(ls[i as int] == all@[i as int]@);
        assert(ls.skip(i as int)[0] == ls[i as int]);
        assert(ls.skip(i as int).drop_first() =~= ls.skip(i + 1));
        let line = strip_plan_prefix(all[i].as_str());
        if !line.as_str().is_empty() {
            return Some(line);
        }
        i += 1;
    }
    None
}

/// The first `max_chars` characters of a title, without white space around them.
pub fn truncate_title(title: &str, max_chars: usize) -> (r: String)
    ensures
        r@ == trim(front(title@, max_chars as int)),
{
    trimmed(front_of(title, max_chars).as_str())
}

/// The title of a session by its plan.
pub fn derive_session_title(plan_markdown: &str) -> (r: String)
    ensures
        r@ == title_of_plan(plan_markdown@),
{
    let candidate: String = match first_markdown_heading(plan_markdown) {
        Some(h) => h,
        None => match first_non_empty_plan_line(plan_markdown) {
            Some(l) => l,
            None => "Session".to_owned(),
        },
    };
    truncate_title(candidate.as_str(), MAX_SESSION_TITLE_CHARS)
}

/// Gives the session the title of its plan.
pub fn refresh_session_title_from_plan(session: &mut SessionState, plan_markdown: &str)
    ensures
        opt_view(final(session).title) == Some(title_of_plan(plan_markdown@)),
        *final(session) == (SessionState { title: final(session).title, ..*old(session) }),
{
    session.title = Some(derive_session_title(plan_markdown));
}

// ---------------------------------------------------------------------------
// Plan files
// ---------------------------------------------------------------------------

/// A plan that was read: its text, or the reason why there is none.
pub type PlanRead = Result<String, String>;

/// The plan that was read from `path`, if it holds anything.
///
/// # Errors
///
/// Returns `Other` if the file could not be read or is blank.
pub fn read_plan_markdown(path: &str, read: PlanRead) -> (r: Result<String, CruiseError>)
    ensures
        match read {
            Err(e) => r matches Err(CruiseError::Other(m)) && m@ == "failed to read generated plan "@
                + path@ + ": "@ + e@,
            Ok(content) => if is_blank(content@) {
                r matches Err(CruiseError::Other(m)) && m@ == "generated plan "@ + path@
                    + " is empty"@
            } else {
                r == Ok::<String, CruiseError>(content)
            },
        },
{
    match read {
        Err(e) => Err(
            CruiseError::Other(
                "failed to read generated plan ".to_owned().concat(path).concat(": ").concat(
                    e.as_str(),
                ),
            ),
        ),
        Ok(content) => if blank(content.as_str()) {
            Err(
                CruiseError::Other("generated plan ".to_owned().concat(path).concat(" is empty")),
            )
        } else {
            Ok(content)
        },
    }
}

/// Recomputes a session title from its plan file, which was read with the given result.
///
/// # Errors
///
/// Returns `Other` if the plan file could not be read or is blank; the session is then as
/// before.
pub fn refresh_session_title_from_session(
    manager: &SessionManager,
    session: &mut SessionState,
    read: PlanRead,
) -> (r: Result<(), CruiseError>)
    ensures
        ({
            let path = manager.file_path(old(session).id@, "plan.md"@);
            match read {
                Err(e) => {
                    &&& r matches Err(CruiseError::Other(m)) && m@
                        == "failed to read generated plan "@ + path + ": "@ + e@
                    &&& *final(session) == *old(session)
                },
                Ok(content) => if is_blank(content@) {
                    &&& r matches Err(CruiseError::Other(m)) && m@ == "generated plan "@ + path
                        + " is empty"@
                    &&& *final(session) == *old(session)
                } else {
                    &&& r is Ok
                    &&& opt_view(final(session).title) == Some(title_of_plan(content@))
                    &&& *final(session) == (SessionState {
                        title: final(session).title,
                        ..*old(session)
                    })
                },
            }
        }),
{
    let path = session.plan_path(manager.sessions_dir().as_str(), manager.windows());
    match read_plan_markdown(path.as_str(), read) {
        Ok(content) => {
            refresh_session_title_from_plan(session, content.as_str());
            Ok(())
        },
        Err(e) => Err(e),
    }
}

/// What the plan file holds before a plan is looked for elsewhere.
#[derive(Debug)]
pub enum PlanFile {
    /// The file holds this text.
    Content(String),
    /// There is no such file.
    NotFound,
    /// The file could not be read, for this reason.
    Failed(String),
}

/// A plan, and whether it still has to be written to the plan file.
#[derive(Debug)]
pub struct PlanContent {
    pub content: String,
    pub write: bool,
}

/// Resolve plan content from multiple sources with fallback.
///
/// Fallback order:
/// 1. the plan file, if it is not blank
/// 2. `stdout`, if it is not blank; it is to be written to the plan file
/// 3. `stderr`, if it is not blank; it is to be written to the plan file
///
/// # Errors
///
/// Returns `Other` if the plan file could not be read or no source holds anything.
pub fn resolve_plan_content(plan_path: &str, file: PlanFile, stdout: &str, stderr: &str) -> (r:
    Result<PlanContent, CruiseError>)
    ensures
        match file {
            PlanFile::Failed(e) => r matches Err(CruiseError::Other(m)) && m@
                == "failed to read plan at "@ + plan_path@ + ": "@ + e@,
            PlanFile::Content(text) if !is_blank(text@) => r == Ok::<PlanContent, CruiseError>(
                PlanContent { content: text, write: false },
            ),
            _ => if !is_blank(stdout@) {
                r matches Ok(plan) && plan.content@ == stdout@ && plan.write
            } else if !is_blank(stderr@) {
                r matches Ok(plan) && plan.content@ == stderr@ && plan.write
            } else {
                r matches Err(CruiseError::Other(m)) && m@
                    == "plan generation produced no output: "@ + plan_path@
                    + ", stdout, and stderr were all empty"@
            },
        },
{
    match file {
        PlanFile::Failed(e) => return Err(
            CruiseError::Other(
                "failed to read plan at ".to_owned().concat(plan_path).concat(": ").concat(
                    e.as_str(),
                ),
            ),
        ),
        PlanFile::Content(text) => if !blank(text.as_str()) {
            return Ok(PlanContent { content: text, write: false });
        },
        PlanFile::NotFound => {},
    }
    if !blank(stdout) {
        return Ok(PlanContent { content: stdout.to_owned(), write: true });
    }
    if !blank(stderr) {
        return Ok(PlanContent { content: stderr.to_owned(), write: true });
    }
    Err(
        CruiseError::Other(
            "plan generation produced no output: ".to_owned().concat(plan_path).concat(
                ", stdout, and stderr were all empty",
            ),
        ),
    )
}

// ---------------------------------------------------------------------------
// Front matter
// ---------------------------------------------------------------------------

/// `s` without a line break at its beginning.
pub open spec fn past_newline(s: Seq<char>) -> Seq<char> {
    match strip_prefix(s, "\r\n"@) {
        Some(rest) => rest,
        None => match strip_prefix(s, "\n"@) {
            Some(rest) => rest,
            None => s,
        },
    }
}

/// `s` without the double quotes around it.
pub open spec fn unquoted(s: Seq<char>) -> Seq<char> {
    if s.len() >= 2 && s[0] == '"' && s.last() == '"' {
        s.subrange(1, s.len() - 1)
    } else {
        s
    }
}

/// The value of the first line that gives a title.
pub open spec fn title_field(all: Seq<Seq<char>>) -> Option<Seq<char>>
    decreases all.len(),
{
    if all.len() == 0 {
        None
    } else {
        match strip_prefix(all[0], "title:"@) {
            Some(value) => Some(unquoted(trim(value))),
            None => title_field(all.drop_first()),
        }
    }
}

/// The title and the body of a text that begins with front matter. Front matter without a title,
/// or with an empty one, is none.
pub open spec fn front_matter(content: Seq<char>) -> Option<(Seq<char>, Seq<char>)> {
    match strip_prefix(content, "---"@) {
        None => None,
        Some(after) => {
            let rest = past_newline(after);
            match first_at(rest, "\n---"@, 0) {
                None => None,
                Some(close) => match title_field(lines(rest.take(close))) {
                    None => None,
                    Some(title) => if title.len() == 0 {
                        None
                    } else {
                        Some((title, past_newline(rest.skip(close + "\n---"@.len()))))
                    },
                },
            }
        },
    }
}

/// The two texts of a pair.
pub open spec fn pair_view(p: (String, String)) -> (Seq<char>, Seq<char>) {
    (p.0@, p.1@)
}

/// The two texts of a pair, if there is one.
pub open spec fn opt_pair_view(p: Option<(String, String)>) -> Option<(Seq<char>, Seq<char>)> {
    match p {
        Some(pair) => Some(pair_view(pair)),
        None => None,
    }
}

/// Removes a line break at the beginning.
pub fn skip_newline(s: &str) -> (r: String)
    ensures
        r@ == past_newline(s@),
{
    match after_prefix(s, "\r\n") {
        Some(rest) => rest,
        None => match after_prefix(s, "\n") {
            Some(rest) => rest,
            None => s.to_owned(),
        },
    }
}

fn strip_quotes(s: &str) -> (r: String)
    ensures
        r@ == unquoted(s@),
{
    let v = chars_of(s);
    if v.len() >= 2 && v[0] == '"' && v[v.len() - 1] == '"' {
        string_of(v.as_slice(), 1, v.len() - 1)
    } else {
        s.to_owned()
    }
}

fn find_title_field(text: &str) -> (r: Option<String>)
    ensures
        opt_view(r) == title_field(lines(text@)),
{
    let all = lines_of(text);
    let ghost ls = lines(text@);
    let mut i: usize = 0;
    assert(all@.len() == views(all@).len());
    assert(ls.skip(0) =~= ls);
    while i < all.len()
        invariant
            i <= all@.len(),
            all@.len() == ls.len(),
            views(all@) == ls,
            title_field(ls) == title_field(ls.skip(i as int)),
            ls == lines(text@),
        decreases all@.len() - i,
    {
        assert(ls[i as int] == all@[i as int]@);
        assert(ls.skip(i as int)[0] == ls[i as int]);
        assert(ls.skip(i as int).drop_first() =~= ls.skip(i + 1));
        match after_prefix(all[i].as_str(), "title:") {
            Some(value) => return Some(strip_quotes(trimmed(value.as_str()).as_str())),
            None => {},
        }
        i += 1;
    }
    None
}

/// Takes apart a text that begins with front matter: a line of dashes, lines of which one gives
/// a title, and a second line of dashes. What follows is the body. There is none if the title is
/// empty.
pub fn try_parse_frontmatter(content: &str) -> (r: Option<(String, String)>)
    ensures
        opt_pair_view(r) == front_matter(content@),
{
    let after = match after_prefix(content, "---") {
        Some(after) => after,
        None => return None,
    };
    let rest = skip_newline(after.as_str());
    let v = chars_of(rest.as_str());
    let n: usize = v.len();
    let fence = chars_of("\n---");
    match find_first(v.as_slice(), fence.as_slice()) {
        None => None,
        Some(close) => {
            let head = string_of(v.as_slice(), 0, close);
            assert(head@ =~= rest@.take(close as int));
            let tail = string_of(v.as_slice(), close + fence.len(), n);
            assert(tail@ =~= rest@.skip(close + fence@.len()));
            match find_title_field(head.as_str()) {
                None => None,
                Some(title) => if title.as_str().is_empty() {
                    None
                } else {
                    Some((title, skip_newline(tail.as_str())))
                },
            }
        },
    }
}

// ---------------------------------------------------------------------------
// Laws
// ---------------------------------------------------------------------------

/// What is written as front matter with a quoted title that holds something is read back.
pub proof fn law_front_matter_is_read_back(title: Seq<char>, body: Seq<char>)
    requires
        title.len() > 0,
        forall|i: int| 0 <= i < title.len() ==> title[i] != '\n',
    ensures
        front_matter("---\ntitle: \""@ + title + "\"\n---\n"@ + body) == Some((title, body)),
{
    reveal_strlit("---\ntitle: \"");
    reveal_strlit("\"\n---\n");
    reveal_strlit("---");
    reveal_strlit("\n");
    reveal_strlit("\r\n");
    reveal_strlit("\n---");
    reveal_strlit("title:");
    let content = "---\ntitle: \""@ + title + "\"\n---\n"@ + body;
    let line = "title:"@ + seq![' ', '"'] + title + seq!['"'];
    let tail = "\n---"@ + "\n"@ + body;
    assert(content.subrange(0, 3) =~= "---"@);
    assert(matches_at(content, "---"@, 0));
    let after = content.skip(3);
    assert(strip_prefix(content, "---"@) == Some(after));
    assert(after =~= "\n"@ + line + tail);
    assert(!matches_at(after, "\r\n"@, 0)) by {
        if matches_at(after, "\r\n"@, 0) {
            assert(after.subrange(0, 2)[0] == '\n');
        }
    }
    assert(after.subrange(0, 1) =~= "\n"@);
    assert(after.skip(1) =~= line + tail);
    let rest = line + tail;
    assert(past_newline(after) == rest);
    assert forall|k: int| 0 <= k < line.len() implies !matches_at(rest, "\n---"@, k) by {
        if matches_at(rest, "\n---"@, k) {
            assert(rest.subrange(k, k + 4)[0] == '\n');
            assert(rest[k] == line[k]);
        }
    }
    assert(matches_at(rest, "\n---"@, line.len() as int)) by {
        assert(rest.subrange(line.len() as int, line.len() + 4int) =~= "\n---"@);
    }
    lemma_first_at(rest, "\n---"@, 0);
    assert(first_at(rest, "\n---"@, 0) == Some(line.len() as int));
    assert(rest.take(line.len() as int) =~= line);
    lemma_one_line(line);
    assert(matches_at(line, "title:"@, 0)) by {
        assert(line.subrange(0, 6) =~= "title:"@);
    }
    let value = seq![' '] + (seq!['"'] + title + seq!['"']);
    assert(line.skip(6) =~= value);
    lemma_trim_one_blank(seq!['"'] + title + seq!['"']);
    assert((seq!['"'] + title + seq!['"']).subrange(1, title.len() + 1int) =~= title);
    assert(title_field(seq![line]) == Some(title));
    let end = rest.skip(line.len() + 4int);
    assert(end =~= "\n"@ + body);
    assert(!matches_at(end, "\r\n"@, 0)) by {
        if matches_at(end, "\r\n"@, 0) {
            assert(end.subrange(0, 2)[0] == '\n');
        }
    }
    assert(end.subrange(0, 1) =~= "\n"@);
    assert(end.skip(1) =~= body);
}

/// A blank before a text that neither begins nor ends with white space is trimmed away.
proof fn lemma_trim_one_blank(s: Seq<char>)
    requires
        s.len() > 0,
        !crate::text::is_white_space(s[0]),
        !crate::text::is_white_space(s.last()),
    ensures
        trim(seq![' '] + s) == s,
{
    let t = seq![' '] + s;
    assert(t.drop_first() =~= s);
    assert(trim_start(t) == trim_start(s));
}

/// A text without line breaks that holds anything is one line.
proof fn lemma_one_line(s: Seq<char>)
    requires
        s.len() > 0,
        forall|i: int| 0 <= i < s.len() ==> s[i] != '\n',
    ensures
        lines(s) == seq![s],
{
    lemma_one_line_from(s, seq![]);
    assert(seq![] + s =~= s);
}

proof fn lemma_one_line_from(s: Seq<char>, cur: Seq<char>)
    requires
        s.len() + cur.len() > 0,
        forall|i: int| 0 <= i < s.len() ==> s[i] != '\n',
    ensures
        crate::text::lines_from(s, cur) == seq![cur + s],
    decreases s.len(),
{
    if s.len() == 0 {
        assert(cur + s =~= cur);
    } else {
        lemma_one_line_from(s.skip(1), cur.push(s[0]));
        assert(cur.push(s[0]) + s.skip(1) =~= cur + s);
    }
}

proof fn lemma_trim_of_front(s: Seq<char>, n: int)
    requires
        n > 0,
        s.len() > 0,
        !crate::text::is_white_space(s[0]),
    ensures
        0 < trim(front(s, n)).len() <= n,
{
    let f = front(s, n);
    assert(f[0] == s[0]);
    assert(!is_blank(f)) by {
        if is_blank(f) {
            assert(crate::text::is_white_space(f[0]));
        }
    }
    lemma_trim_blank(f);
    lemma_trim_is_no_longer(f);
}

proof fn lemma_trim_is_no_longer(s: Seq<char>)
    ensures
        trim(s).len() <= s.len(),
{
    lemma_trim_start_is_no_longer(s);
    lemma_trim_end_is_no_longer(trim_start(s));
}

proof fn lemma_trim_start_is_no_longer(s: Seq<char>)
    ensures
        trim_start(s).len() <= s.len(),
        trim_start(s).len() > 0 ==> !crate::text::is_white_space(trim_start(s)[0]),
    decreases s.len(),
{
    if s.len() > 0 && crate::text::is_white_space(s[0]) {
        lemma_trim_start_is_no_longer(s.drop_first());
    }
}

proof fn lemma_trim_end_is_no_longer(s: Seq<char>)
    ensures
        trim_end(s).len() <= s.len(),
        trim_end(s).len() > 0 ==> trim_end(s)[0] == s[0],
    decreases s.len(),
{
    if s.len() > 0 && crate::text::is_white_space(s.last()) {
        lemma_trim_end_is_no_longer(s.drop_last());
    }
}

/// A trimmed text that holds anything begins with no white space.
proof fn lemma_trimmed_begins_dark(s: Seq<char>)
    ensures
        trim(s).len() > 0 ==> !crate::text::is_white_space(trim(s)[0]),
{
    lemma_trim_start_is_no_longer(s);
    lemma_trim_end_is_no_longer(trim_start(s));
}

proof fn lemma_heading_begins_dark(all: Seq<Seq<char>>)
    ensures
        first_heading(all) matches Some(h) ==> h.len() > 0 && !crate::text::is_white_space(h[0]),
    decreases all.len(),
{
    if all.len() > 0 {
        lemma_trimmed_begins_dark(without_leading(trim(all[0]), '#'));
        lemma_heading_begins_dark(all.drop_first());
    }
}

proof fn lemma_plan_line_begins_dark(all: Seq<Seq<char>>)
    ensures
        first_plan_line(all) matches Some(l) ==> l.len() > 0 && !crate::text::is_white_space(l[0]),
    decreases all.len(),
{
    if all.len() > 0 {
        let u = bullet_item(trim(all[0]));
        lemma_trimmed_begins_dark(
            match ordered_item(u) {
                Some(rest) => rest,
                None => u,
            },
        );
        lemma_plan_line_begins_dark(all.drop_first());
    }
}

/// A session always gets a title that holds something, and no more than eighty characters.
pub proof fn law_title_is_short_and_not_empty(plan: Seq<char>)
    ensures
        0 < title_of_plan(plan).len() <= MAX_SESSION_TITLE_CHARS,
{
    lemma_heading_begins_dark(lines(plan));
    lemma_plan_line_begins_dark(lines(plan));
    reveal_strlit("Session");
    assert("Session"@[0] == 'S');
    lemma_trim_of_front(title_candidate(plan), MAX_SESSION_TITLE_CHARS as int);
}

} // verus!
