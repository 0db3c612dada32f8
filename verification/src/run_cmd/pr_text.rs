//! Titles and bodies of pull requests in the answers of a model.

use vstd::prelude::*;

use crate::metadata::{
    front_matter, law_front_matter_is_read_back, opt_pair_view, pair_view, past_newline, skip_newline, try_parse_frontmatter,
};
use crate::text::{
    after_prefix, begins, chars_of, find_first, find_last, first_at, last_at, matches_at, opt_view,
    split, split_from, split_on, starts_with, string_of, strip_prefix, strip_trailing, trim,
    trimmed, views, without_trailing,
};

verus! {

// ---------------------------------------------------------------------------
// Lines and their places
// ---------------------------------------------------------------------------

/// The place of the `n`th piece in the text that was split.
pub open spec fn piece_start(pieces: Seq<Seq<char>>, n: int) -> int
    decreases n,
{
    if n <= 0 {
        0
    } else {
        piece_start(pieces, n - 1) + pieces[n - 1].len() + 1
    }
}

/// The lines of `s` without the carriage returns at their ends, each with its place.
pub open spec fn line_offsets(s: Seq<char>) -> Seq<(int, Seq<char>)> {
    Seq::new(
        split(s, '\n').len(),
        |i: int| (piece_start(split(s, '\n'), i), without_trailing(split(s, '\n')[i], '\r')),
    )
}

/// The lines with their places as mathematical values.
pub open spec fn offset_views(v: Seq<(usize, String)>) -> Seq<(int, Seq<char>)> {
    v.map_values(|e: (usize, String)| (e.0 as int, e.1@))
}

proof fn lemma_piece_start_of_rest(first: Seq<char>, rest: Seq<Seq<char>>, n: int)
    requires
        0 <= n <= rest.len(),
    ensures
        piece_start(seq![first] + rest, n + 1) == first.len() + 1 + piece_start(rest, n),
    decreases n,
{
    let all = seq![first] + rest;
    if n == 0 {
        assert(piece_start(all, 0) == 0);
        assert(all[0] == first);
    } else {
        lemma_piece_start_of_rest(first, rest, n - 1);
        assert(all[n] == rest[n - 1]);
    }
}

/// The pieces and the separators between them are as long as the text.
proof fn lemma_pieces_fill(s: Seq<char>, sep: char, cur: Seq<char>)
    ensures
        split_from(s, sep, cur).len() > 0,
        piece_start(split_from(s, sep, cur), split_from(s, sep, cur).len() as int) == cur.len()
            + s.len() + 1,
    decreases s.len(),
{
    if s.len() == 0 {
        let one = split_from(s, sep, cur);
        assert(one =~= seq![cur]);
        assert(piece_start(one, 0) == 0);
        assert(piece_start(one, 1) == piece_start(one, 0) + one[0].len() + 1);
    } else if s[0] == sep {
        lemma_pieces_fill(s.skip(1), sep, seq![]);
        let rest = split_from(s.skip(1), sep, seq![]);
        lemma_piece_start_of_rest(cur, rest, rest.len() as int);
    } else {
        lemma_pieces_fill(s.skip(1), sep, cur.push(s[0]));
    }
}

proof fn lemma_piece_start_grows(pieces: Seq<Seq<char>>, i: int, j: int)
    requires
        0 <= i <= j <= pieces.len(),
    ensures
        0 <= piece_start(pieces, i) <= piece_start(pieces, j),
    decreases j,
{
    if j > 0 {
        if i < j {
            lemma_piece_start_grows(pieces, i, j - 1);
        } else {
            lemma_piece_start_grows(pieces, i - 1, j - 1);
        }
    }
}

/// A line ends within its text.
proof fn lemma_line_within(s: Seq<char>, i: int)
    requires
        0 <= i < split(s, '\n').len(),
    ensures
        0 <= piece_start(split(s, '\n'), i),
        piece_start(split(s, '\n'), i) + split(s, '\n')[i].len() <= s.len(),
        line_offsets(s)[i].1.len() <= split(s, '\n')[i].len(),
{
    let pieces = split(s, '\n');
    lemma_pieces_fill(s, '\n', seq![]);
    lemma_piece_start_grows(pieces, i + 1, pieces.len() as int);
    lemma_piece_start_grows(pieces, 0, i);
    lemma_without_trailing_is_shorter(pieces[i], '\r');
}

proof fn lemma_without_trailing_is_shorter(s: Seq<char>, c: char)
    ensures
        without_trailing(s, c).len() <= s.len(),
    decreases s.len(),
{
    if s.len() > 0 && s.last() == c {
        lemma_without_trailing_is_shorter(s.drop_last(), c);
    }
}

/// The lines of `s` without the carriage returns at their ends, each with its place counted in
/// characters.
pub fn iter_line_offsets(s: &str) -> (r: Vec<(usize, String)>)
    ensures
        offset_views(r@) == line_offsets(s@),
{
    let pieces = split_on(s, '\n');
    let size: usize = chars_of(s).len();
    let ghost ps = split(s@, '\n');
    assert(pieces@.len() == views(pieces@).len());
    let mut r: Vec<(usize, String)> = Vec::new();
    let mut offset: usize = 0;
    let mut i: usize = 0;
    while i < pieces.len()
        invariant
            i <= pieces@.len(),
            pieces@.len() == ps.len(),
            views(pieces@) == ps,
            ps == split(s@, '\n'),
            size == s@.len(),
            i < pieces@.len() ==> offset == piece_start(ps, i as int),
            r@.len() == i,
            forall|k: int|
                0 <= k < i ==> (#[trigger] r@[k]).0 == piece_start(ps, k) && r@[k].1@
                    == without_trailing(ps[k], '\r'),
        decreases pieces@.len() - i,
    {
        assert(ps[i as int] == pieces@[i as int]@);
        proof {
            lemma_line_within(s@, i as int);
        }
        r.push((offset, strip_trailing(pieces[i].as_str(), '\r')));
        let len: usize = chars_of(pieces[i].as_str()).len();
        i += 1;
        if i < pieces.len() {
            proof {
                lemma_line_within(s@, i as int);
            }
            offset = offset + len + 1;
        }
    }
    assert(offset_views(r@) =~= line_offsets(s@));
    r
}

// ---------------------------------------------------------------------------
// Code blocks
// ---------------------------------------------------------------------------

/// What stands before the last fence in `inner`, without line feeds at its end.
pub open spec fn up_to_fence(inner: Seq<char>) -> Option<Seq<char>> {
    match last_at(inner, "```"@, inner.len() as int) {
        Some(close) => Some(without_trailing(inner.take(close), '\n')),
        None => None,
    }
}

/// The first line from the `i`th on that begins with a fence.
pub open spec fn first_fence(all: Seq<(int, Seq<char>)>, i: int) -> Option<int>
    decreases all.len() - i,
{
    if i >= all.len() {
        None
    } else if starts_with(all[i].1, "```"@) {
        Some(i)
    } else {
        first_fence(all, i + 1)
    }
}

/// What follows the line at `i`.
pub open spec fn after_line(s: Seq<char>, i: int) -> Seq<char> {
    past_newline(s.skip(line_offsets(s)[i].0 + line_offsets(s)[i].1.len()))
}

/// The text in the first code block of `s`, or `s` itself, without white space around it, where
/// there is no whole block.
pub open spec fn code_block(s: Seq<char>) -> Seq<char> {
    let t = trim(s);
    let inner = match strip_prefix(t, "```"@) {
        Some(after) => match first_at(after, "\n"@, 0) {
            Some(newline) => up_to_fence(after.skip(newline + 1)),
            None => None,
        },
        None => match first_fence(line_offsets(t), 0) {
            Some(i) => up_to_fence(after_line(t, i)),
            None => None,
        },
    };
    match inner {
        Some(text) => text,
        None => t,
    }
}

fn before_fence(inner: &str) -> (r: Option<String>)
    ensures
        opt_view(r) == up_to_fence(inner@),
{
    let v = chars_of(inner);
    let fence = chars_of("```");
    match find_last(v.as_slice(), fence.as_slice()) {
        Some(close) => {
            let head = string_of(v.as_slice(), 0, close);
            assert(head@ =~= inner@.take(close as int));
            Some(strip_trailing(head.as_str(), '\n'))
        },
        None => None,
    }
}

fn rest_after_line(s: &str, start: usize, line: &str, Ghost(i): Ghost<int>) -> (r: String)
    requires
        0 <= i < line_offsets(s@).len(),
        line_offsets(s@)[i] == (start as int, line@),
    ensures
        r@ == after_line(s@, i),
{
    let v = chars_of(s);
    let n: usize = v.len();
    let len: usize = chars_of(line).len();
    proof {
        lemma_line_within(s@, i);
    }
    let rest = string_of(v.as_slice(), start + len, n);
    assert(rest@ =~= s@.skip(start + len));
    skip_newline(rest.as_str())
}

/// Strips an optional Markdown code block around a text.
///
/// Handles fences with and without a language. Gives the text between the fences without line
/// feeds at its end, or the trimmed input where no whole code block is found. A text may stand
/// before the block: the first line that begins with a fence opens it.
pub fn strip_code_block(s: &str) -> (r: String)
    ensures
        r@ == code_block(s@),
{
    let t = trimmed(s);
    match after_prefix(t.as_str(), "```") {
        Some(after) => {
            let v = chars_of(after.as_str());
            let n: usize = v.len();
            let newline = chars_of("\n");
            proof {
                reveal_strlit("\n");
            }
            match find_first(v.as_slice(), newline.as_slice()) {
                Some(p) => {
                    let inner = string_of(v.as_slice(), p + 1, n);
                    assert(inner@ =~= after@.skip(p + 1));
                    match before_fence(inner.as_str()) {
                        Some(text) => text,
                        None => t,
                    }
                },
                None => t,
            }
        },
        None => {
            let all = iter_line_offsets(t.as_str());
            let ghost ls = line_offsets(t@);
            let mut i: usize = 0;
            assert(all@.len() == offset_views(all@).len());
            while i < all.len()
                invariant
                    i <= all@.len(),
                    all@.len() == ls.len(),
                    offset_views(all@) == ls,
                    ls == line_offsets(t@),
                    t@ == trim(s@),
                    strip_prefix(t@, "```"@) is None,
                    first_fence(ls, 0) == first_fence(ls, i as int),
                decreases all@.len() - i,
            {
                assert(ls[i as int] == (all@[i as int].0 as int, all@[i as int].1@));
                if begins(all[i].1.as_str(), "```") {
                    let rest = rest_after_line(
                        t.as_str(),
                        all[i].0,
                        all[i].1.as_str(),
                        Ghost(i as int),
                    );
                    return match before_fence(rest.as_str()) {
                        Some(text) => text,
                        None => t,
                    };
                }
                i += 1;
            }
            t
        },
    }
}

// ---------------------------------------------------------------------------
// Titles and bodies
// ---------------------------------------------------------------------------

/// The title in a line that is a heading of the first level.
pub open spec fn heading_title(line: Seq<char>) -> Option<Seq<char>> {
    match strip_prefix(line, "# "@) {
        Some(rest) => if trim(rest).len() > 0 {
            Some(trim(rest))
        } else {
            None
        },
        None => None,
    }
}

/// The first line from the `i`th on that is a heading with a title.
pub open spec fn first_title(all: Seq<(int, Seq<char>)>, i: int) -> Option<int>
    decreases all.len() - i,
{
    if i >= all.len() {
        None
    } else if heading_title(all[i].1) is Some {
        Some(i)
    } else {
        first_title(all, i + 1)
    }
}

/// The title in the first heading of `s` and what follows that line.
pub open spec fn heading_format(s: Seq<char>) -> Option<(Seq<char>, Seq<char>)> {
    match first_title(line_offsets(s), 0) {
        Some(i) => Some((heading_title(line_offsets(s)[i].1)->0, after_line(s, i))),
        None => None,
    }
}

/// The front matter at the beginning of `s`, or else at its first line of dashes.
pub open spec fn front_matter_in(s: Seq<char>) -> Option<(Seq<char>, Seq<char>)> {
    match front_matter(s) {
        Some(pair) => Some(pair),
        None => match first_at(s, "\n---\n"@, 0) {
            Some(pos) => front_matter(s.skip(pos + 1)),
            None => None,
        },
    }
}

/// The title and the body in an answer.
pub open spec fn pr_metadata(output: Seq<char>) -> (Seq<char>, Seq<char>) {
    let content = code_block(output);
    match front_matter_in(content) {
        Some(pair) => pair,
        None => match heading_format(content) {
            Some(pair) => pair,
            None => (seq![], seq![]),
        },
    }
}

/// Takes apart a text with a heading of the first level: the title and what follows that line.
/// Headings of lower levels are left as they are.
pub fn try_parse_heading_format(content: &str) -> (r: Option<(String, String)>)
    ensures
        opt_pair_view(r) == heading_format(content@),
{
    let all = iter_line_offsets(content);
    let ghost ls = line_offsets(content@);
    let mut i: usize = 0;
    assert(all@.len() == offset_views(all@).len());
    while i < all.len()
        invariant
            i <= all@.len(),
            all@.len() == ls.len(),
            offset_views(all@) == ls,
            ls == line_offsets(content@),
            first_title(ls, 0) == first_title(ls, i as int),
        decreases all@.len() - i,
    {
        assert(ls[i as int] == (all@[i as int].0 as int, all@[i as int].1@));
        match after_prefix(all[i].1.as_str(), "# ") {
            Some(rest) => {
                let title = trimmed(rest.as_str());
                if !title.as_str().is_empty() {
                    let body = rest_after_line(
                        content,
                        all[i].0,
                        all[i].1.as_str(),
                        Ghost(i as int),
                    );
                    return Some((title, body));
                }
            },
            None => {},
        }
        i += 1;
    }
    None
}

fn find_front_matter(s: &str) -> (r: Option<(String, String)>)
    ensures
        opt_pair_view(r) == front_matter_in(s@),
{
    let whole = try_parse_frontmatter(s);
    if whole.is_some() {
        return whole;
    }
    let v = chars_of(s);
    let n: usize = v.len();
    let dashes = chars_of("\n---\n");
    proof {
        reveal_strlit("\n---\n");
    }
    match find_first(v.as_slice(), dashes.as_slice()) {
        Some(pos) => {
            let rest = string_of(v.as_slice(), pos + 1, n);
            assert(rest@ =~= s@.skip(pos + 1));
            try_parse_frontmatter(rest.as_str())
        },
        None => None,
    }
}

/// Parses an answer into the title and the body of a pull request.
///
/// The answer holds front matter, at its beginning or after some text, or else a heading of the
/// first level. Both texts are empty where it holds neither.
pub fn parse_pr_metadata(output: &str) -> (r: (String, String))
    ensures
        pair_view(r) == pr_metadata(output@),
{
    let content = strip_code_block(output);
    match find_front_matter(content.as_str()) {
        Some(pair) => pair,
        None => match try_parse_heading_format(content.as_str()) {
            Some(pair) => pair,
            None => {
                let r = (String::new(), String::new());
                assert(pair_view(r).0 =~= seq![] && pair_view(r).1 =~= seq![]);
                r
            },
        },
    }
}

/// The title and the body in the answer of an interface that was asked for front matter.
pub open spec fn api_pr_output(text: Seq<char>) -> (Seq<char>, Seq<char>) {
    match front_matter_in(trim(text)) {
        Some((title, body)) => (title, trim(body)),
        None => (seq![], trim(text)),
    }
}

/// Parses the answer of an interface into the title and the body of a pull request. Without
/// front matter there is no title, and the whole answer is the body.
pub fn parse_api_pr_output(text: &str) -> (r: (String, String))
    ensures
        pair_view(r) == api_pr_output(text@),
{
    let t = trimmed(text);
    match find_front_matter(t.as_str()) {
        Some((title, body)) => (title, trimmed(body.as_str())),
        None => {
            let r = (String::new(), t);
            assert(pair_view(r).0 =~= seq![]);
            r
        },
    }
}

// ---------------------------------------------------------------------------
// Laws
// ---------------------------------------------------------------------------

/// The title and the body of an answer in the form that is asked for are found, if the title
/// holds something and is on one line, and the answer has no white space around it and no line
/// that begins with a fence.
pub proof fn law_answer_is_read_back(title: Seq<char>, body: Seq<char>)
    requires
        title.len() > 0,
        forall|i: int| 0 <= i < title.len() ==> title[i] != '\n',
        ({
            let answer = "---\ntitle: \""@ + title + "\"\n---\n"@ + body;
            trim(answer) == answer && first_fence(line_offsets(answer), 0) is None
        }),
    ensures
        pr_metadata("---\ntitle: \""@ + title + "\"\n---\n"@ + body) == (title, body),
{
    let answer = "---\ntitle: \""@ + title + "\"\n---\n"@ + body;
    law_front_matter_is_read_back(title, body);
    reveal_strlit("```");
    reveal_strlit("---\ntitle: \"");
    assert(answer[0] == '-');
    if matches_at(answer, "```"@, 0) {
        assert(answer.subrange(0, 3)[0] == '`');
    }
    assert(code_block(answer) == answer);
}

proof fn lemma_title_holds_something(all: Seq<(int, Seq<char>)>, i: int)
    requires
        0 <= i,
    ensures
        first_title(all, i) matches Some(k) ==> 0 <= k < all.len() && heading_title(
            all[k].1,
        ) is Some,
    decreases all.len() - i,
{
    if i < all.len() && heading_title(all[i].1) is None {
        lemma_title_holds_something(all, i + 1);
    }
}

/// An answer in which no title is found gives no body either.
pub proof fn law_no_body_without_a_title(output: Seq<char>)
    ensures
        pr_metadata(output).0.len() == 0 ==> pr_metadata(output).1.len() == 0,
{
    lemma_title_holds_something(line_offsets(code_block(output)), 0);
}

} // verus!
