//! Pull requests: what they are called, how they come about, and what is known of them afterwards.

use vstd::prelude::*;

use crate::config::step_list;
use crate::engine::ExecutionResult;
use crate::error::CruiseError;
use crate::metadata::{past_newline, pair_view, title_field, try_parse_frontmatter};
use crate::run_cmd::pr_text::{
    after_line, first_fence, first_title, heading_title, line_offsets, parse_api_pr_output,
    parse_pr_metadata, strip_code_block, try_parse_heading_format, up_to_fence,
};
use crate::run_cmd::publish::{
    advance_publish, first_publish_stage, PublishEvent, PublishNext, PublishStage, PublishStep,
};
use crate::run_cmd::pull_request::{
    advance, after_last_slash, before_query, ensure_gh_available, extract_last_path_segment,
    git_stdout, parse_commit_count, CommitOutcome, PrAdvance, PrAttemptOutcome, PrJob, PrStage,
    ToolCall, ToolReply,
};
use crate::run_cmd::session_run::{build_pr_prompt, note_pr_attempt, PrFollowUp};
use crate::session::{SessionState, WorktreeContext};
use crate::step::prompt::PromptResult;
use crate::step_run::PromptRequest;
use crate::text::{
    decimal, first_at, is_blank, is_white_space, last_at, matches_at, split, starts_with, trim,
    utf8_lossy, without_trailing,
};
use crate::variable::VariableStore;
use crate::workflow::CompiledWorkflow;

use super::texts::law_trimmed_texts_stay;

verus! {

// ---------------------------------------------------------------------------
// Titles and bodies
// ---------------------------------------------------------------------------

proof fn lemma_title_field(all: Seq<Seq<char>>, i: int)
    requires
        0 <= i < all.len(),
        starts_with(all[i], "title:"@),
        forall|j: int| 0 <= j < i ==> !starts_with(#[trigger] all[j], "title:"@),
    ensures
        title_field(all) == Some(
            crate::metadata::unquoted(trim(all[i].skip("title:"@.len() as int))),
        ),
    decreases all.len(),
{
    reveal_strlit("title:");
    if i > 0 {
        assert(!starts_with(all[0], "title:"@));
        assert forall|j: int| 0 <= j < i - 1 implies !starts_with(
            #[trigger] all.drop_first()[j],
            "title:"@,
        ) by {
            assert(all.drop_first()[j] == all[j + 1]);
        }
        lemma_title_field(all.drop_first(), i - 1);
    }
}

/// Of the lines of front matter the first one that gives a title counts. What it gives is taken
/// without the white space around it, and without the double quotes around that, if there are any.
pub proof fn law_the_first_title_counts(all: Seq<Seq<char>>, i: int, title: Seq<char>)
    requires
        0 <= i < all.len(),
        forall|j: int| 0 <= j < i ==> !starts_with(#[trigger] all[j], "title:"@),
        title.len() > 0 && !is_white_space(title[0]) && !is_white_space(title.last()),
        title[0] != '"',
        all[i] == "title:"@ + seq![' '] + title || all[i] == "title:"@ + seq![' ', '"'] + title
            + seq!['"'] || all[i] == "title:"@ + title,
    ensures
        title_field(all) == Some(title),
{
    reveal_strlit("title:");
    let line = all[i];
    assert(line.subrange(0, 6) =~= "title:"@);
    lemma_title_field(all, i);
    let value = line.skip(6);
    let quoted = seq!['"'] + title + seq!['"'];
    let pad = seq![' '];
    if line == "title:"@ + seq![' '] + title {
        assert(value =~= pad + title + Seq::<char>::empty());
        super::plans::law_padding_is_trimmed(pad, title, Seq::<char>::empty());
    } else if line == "title:"@ + title {
        assert(value =~= title);
        law_trimmed_texts_stay(title);
    } else {
        assert(value =~= pad + quoted + Seq::<char>::empty());
        super::plans::law_padding_is_trimmed(pad, quoted, Seq::<char>::empty());
        assert(quoted.subrange(1, quoted.len() - 1) =~= title);
    }
}

/// A text that does not begin with a line of dashes has no front matter.
pub proof fn law_front_matter_stands_at_the_beginning(
    content: &str,
    r: Option<(String, String)>,
)
    requires
        call_ensures(try_parse_frontmatter, (content,), r),
        !starts_with(content@, "---"@),
    ensures
        r is None,
{
}

/// What was written as front matter with a quoted title is read back.
pub proof fn law_front_matter_is_taken_apart(
    title: Seq<char>,
    body: Seq<char>,
    content: &str,
    r: Option<(String, String)>,
)
    requires
        title.len() > 0,
        forall|i: int| 0 <= i < title.len() ==> title[i] != '\n',
        content@ == "---\ntitle: \""@ + title + "\"\n---\n"@ + body,
        call_ensures(try_parse_frontmatter, (content,), r),
    ensures
        r matches Some(pair) && pair.0@ == title && pair.1@ == body,
{
    crate::metadata::law_front_matter_is_read_back(title, body);
}

proof fn lemma_first_title(all: Seq<(int, Seq<char>)>, from: int, i: int)
    requires
        0 <= from <= i < all.len(),
        heading_title(all[i].1) is Some,
        forall|j: int| from <= j < i ==> heading_title((#[trigger] all[j]).1) is None,
    ensures
        first_title(all, from) == Some(i),
    decreases i - from,
{
    if from < i {
        assert(heading_title(all[from].1) is None);
        lemma_first_title(all, from + 1, i);
    }
}

/// Without front matter the first heading of the first level is the title, and what follows its
/// line is the body.
pub proof fn law_headings_give_title_and_body(
    title: Seq<char>,
    body: Seq<char>,
    content: &str,
    r: Option<(String, String)>,
)
    requires
        call_ensures(try_parse_heading_format, (content,), r),
        title.len() > 0 && !is_white_space(title[0]) && !is_white_space(title.last()),
        forall|i: int| 0 <= i < title.len() ==> title[i] != '\n',
        content@ == "# "@ + title + seq!['\n'] + body,
    ensures
        r matches Some(pair) && pair.0@ == title && pair.1@ == body,
{
    reveal_strlit("# ");
    reveal_strlit("\n");
    reveal_strlit("\r\n");
    let line = "# "@ + title;
    let s = content@;
    crate::text::lemma_split_first(line, '\n', body);
    assert(split(s, '\n')[0] == line);
    assert(line.last() == title.last());
    assert(without_trailing(line, '\r') == line);
    assert(line_offsets(s)[0] == (0int, line));
    assert(line.subrange(0, 2) =~= "# "@);
    assert(line.skip(2) =~= title);
    law_trimmed_texts_stay(title);
    lemma_first_title(line_offsets(s), 0, 0);
    let rest = s.skip(line.len() as int);
    assert(rest =~= seq!['\n'] + body);
    assert(rest[0] == '\n');
    if rest.len() >= 2 {
        assert(rest.subrange(0, 2)[0] == '\n');
    }
    assert(rest.subrange(0, 1) =~= "\n"@);
    assert(rest.skip(1) =~= body);
    assert(past_newline(rest) == body);
}

/// A text has a heading of the first level exactly if one of its lines begins with one number sign
/// and a blank and goes on with anything; the first such line counts.
pub proof fn law_the_first_heading_of_the_first_level_counts(
    content: &str,
    r: Option<(String, String)>,
    i: int,
)
    requires
        call_ensures(try_parse_heading_format, (content,), r),
        0 <= i < line_offsets(content@).len(),
        heading_title(line_offsets(content@)[i].1) is Some,
        forall|j: int|
            0 <= j < i ==> heading_title((#[trigger] line_offsets(content@)[j]).1) is None,
    ensures
        r matches Some(pair) && Some(pair.0@) == heading_title(line_offsets(content@)[i].1)
            && pair.1@ == after_line(content@, i),
{
    lemma_first_title(line_offsets(content@), 0, i);
}

proof fn lemma_without_newline(s: Seq<char>)
    requires
        s.len() == 0 || s.last() != '\n',
    ensures
        without_trailing(s.push('\n'), '\n') == s,
{
    assert(s.push('\n').drop_last() =~= s);
    assert(without_trailing(s, '\n') == s);
}

/// A text in a block of code is taken out of it, whatever language the block is said to be in; a
/// text without any mark of such a block is only trimmed.
pub proof fn law_blocks_of_code_are_opened(
    language: Seq<char>,
    inner: Seq<char>,
    s: &str,
    r: String,
)
    requires
        call_ensures(strip_code_block, (s,), r),
        forall|i: int| 0 <= i < language.len() ==> language[i] != '\n',
        inner.len() > 0 && inner.last() != '\n',
        s@ == "```"@ + language + seq!['\n'] + inner + seq!['\n'] + "```"@,
    ensures
        r@ == inner,
{
    reveal_strlit("```");
    reveal_strlit("\n");
    let t = s@;
    assert(t[0] == '`' && t.last() == '`');
    law_trimmed_texts_stay(t);
    assert(t.subrange(0, 3) =~= "```"@);
    let after = t.skip(3);
    let close = inner + seq!['\n'] + "```"@;
    assert(after =~= language + seq!['\n'] + close);
    let n = language.len() as int;
    assert(after.subrange(n, n + 1) =~= "\n"@);
    assert forall|k: int| 0 <= k < n implies !matches_at(after, "\n"@, k) by {
        if matches_at(after, "\n"@, k) {
            assert(after.subrange(k, k + 1)[0] == language[k]);
        }
    }
    crate::text::lemma_first_at(after, "\n"@, 0);
    assert(matches_at(after, "\n"@, n));
    assert(first_at(after, "\n"@, 0) == Some(n));
    assert(after.skip(n + 1) =~= close);
    lemma_up_to_fence(inner);
}

proof fn lemma_up_to_fence(inner: Seq<char>)
    requires
        inner.len() > 0 && inner.last() != '\n',
    ensures
        up_to_fence(inner + seq!['\n'] + "```"@) == Some(inner),
{
    reveal_strlit("```");
    let close = inner + seq!['\n'] + "```"@;
    let m = close.len() as int;
    assert(close.subrange(m - 3, m) =~= "```"@);
    assert(matches_at(close, "```"@, m - 3));
    assert(!matches_at(close, "```"@, m) && !matches_at(close, "```"@, m - 1) && !matches_at(
        close,
        "```"@,
        m - 2,
    ));
    assert(last_at(close, "```"@, m - 3) == Some(m - 3));
    assert(last_at(close, "```"@, m - 2) == Some(m - 3));
    assert(last_at(close, "```"@, m - 1) == Some(m - 3));
    assert(last_at(close, "```"@, m) == Some(m - 3));
    assert(close.take(m - 3) =~= inner.push('\n'));
    lemma_without_newline(inner);
}

/// A block of code that stands behind a line of talk is opened too.
pub proof fn law_blocks_behind_talk_are_opened(
    talk: Seq<char>,
    language: Seq<char>,
    inner: Seq<char>,
    s: &str,
    r: String,
)
    requires
        call_ensures(strip_code_block, (s,), r),
        talk.len() > 0 && talk[0] != '`' && !is_white_space(talk[0]),
        forall|i: int| 0 <= i < talk.len() ==> talk[i] != '\n',
        forall|i: int| 0 <= i < language.len() ==> language[i] != '\n' && language[i] != '\r',
        inner.len() > 0 && inner.last() != '\n',
        s@ == talk + seq!['\n'] + ("```"@ + language + seq!['\n'] + (inner + seq!['\n'] + "```"@)),
    ensures
        r@ == inner,
{
    reveal_strlit("```");
    reveal_strlit("\n");
    reveal_strlit("\r\n");
    let t = s@;
    let fence = "```"@ + language;
    let close = inner + seq!['\n'] + "```"@;
    let tail = fence + seq!['\n'] + close;
    assert(t == talk + seq!['\n'] + tail);
    assert(t[0] == talk[0] && t.last() == '`');
    law_trimmed_texts_stay(t);
    assert(!starts_with(t, "```"@)) by {
        if starts_with(t, "```"@) {
            assert(t.subrange(0, 3)[0] == talk[0]);
        }
    }
    crate::text::lemma_split_first(talk, '\n', tail);
    crate::text::lemma_split_first(fence, '\n', close);
    let pieces = split(t, '\n');
    assert(pieces == seq![talk] + split(tail, '\n'));
    assert(split(tail, '\n') == seq![fence] + split(close, '\n'));
    assert(pieces[0] == talk && pieces[1] == fence);
    let all = line_offsets(t);
    assert(without_trailing(fence, '\r') == fence);
    reveal_with_fuel(crate::run_cmd::pr_text::piece_start, 2);
    assert(all[1] == (talk.len() + 1int, fence));
    lemma_without_returns(talk);
    assert(!starts_with(all[0].1, "```"@)) by {
        if starts_with(all[0].1, "```"@) {
            assert(all[0].1.subrange(0, 3)[0] == talk[0]);
        }
    }
    assert(fence.subrange(0, 3) =~= "```"@);
    assert(starts_with(all[1].1, "```"@));
    assert(first_fence(all, 1) == Some(1int));
    assert(first_fence(all, 0) == Some(1int));
    let rest = t.skip(talk.len() + 1int + fence.len());
    assert(rest =~= seq!['\n'] + close);
    if rest.len() >= 2 {
        assert(rest.subrange(0, 2)[0] == '\n');
    }
    assert(rest.subrange(0, 1) =~= "\n"@);
    assert(rest.skip(1) =~= close);
    assert(past_newline(rest) == close);
    lemma_up_to_fence(inner);
}

proof fn lemma_without_returns(s: Seq<char>)
    ensures
        without_trailing(s, '\r').len() > 0 ==> without_trailing(s, '\r')[0] == s[0],
    decreases s.len(),
{
    if s.len() > 0 && s.last() == '\r' {
        lemma_without_returns(s.drop_last());
    }
}

/// Front matter that stands behind talk counts too, from its first line of dashes on.
pub proof fn law_front_matter_behind_talk_counts(
    talk: Seq<char>,
    title: Seq<char>,
    body: Seq<char>,
    text: &str,
    r: (String, String),
)
    requires
        call_ensures(parse_api_pr_output, (text,), r),
        title.len() > 0,
        forall|i: int| 0 <= i < title.len() ==> title[i] != '\n',
        talk.len() > 0 && !is_white_space(talk[0]) && talk[0] != '-',
        forall|i: int| 0 <= i < talk.len() ==> talk[i] != '\n',
        body.len() > 0 && !is_white_space(body.last()),
        text@ == talk + seq!['\n'] + ("---\ntitle: \""@ + title + "\"\n---\n"@ + body),
    ensures
        r.0@ == title,
        r.1@ == trim(body),
{
    reveal_strlit("---");
    reveal_strlit("\n---\n");
    reveal_strlit("---\ntitle: \"");
    reveal_strlit("\"\n---\n");
    let t = text@;
    let matter = "---\ntitle: \""@ + title + "\"\n---\n"@ + body;
    assert(t[0] == talk[0] && t.last() == body.last());
    law_trimmed_texts_stay(t);
    assert(!starts_with(t, "---"@)) by {
        if starts_with(t, "---"@) {
            assert(t.subrange(0, 3)[0] == talk[0]);
        }
    }
    let n = talk.len() as int;
    assert(t.subrange(n, n + 5) =~= "\n---\n"@);
    assert(matches_at(t, "\n---\n"@, n));
    assert forall|k: int| 0 <= k < n implies !matches_at(t, "\n---\n"@, k) by {
        if matches_at(t, "\n---\n"@, k) {
            assert(t.subrange(k, k + 5)[0] == talk[k]);
        }
    }
    crate::text::lemma_first_at(t, "\n---\n"@, 0);
    assert(first_at(t, "\n---\n"@, 0) == Some(n));
    assert(t.skip(n + 1) =~= matter);
    crate::metadata::law_front_matter_is_read_back(title, body);
}

/// Front matter at the beginning of an answer decides, before any heading; a heading decides where
/// there is no front matter; without either there is no title and no body.
pub proof fn law_front_matter_comes_before_headings(
    output: &str,
    stripped: String,
    content: &str,
    in_front: Option<(String, String)>,
    headed: Option<(String, String)>,
    r: (String, String),
)
    requires
        call_ensures(strip_code_block, (output,), stripped),
        content@ == stripped@,
        call_ensures(try_parse_frontmatter, (content,), in_front),
        call_ensures(try_parse_heading_format, (content,), headed),
        call_ensures(parse_pr_metadata, (output,), r),
    ensures
        in_front matches Some(pair) ==> pair_view(pair) == pair_view(r),
        in_front is None && first_at(content@, "\n---\n"@, 0) is None ==> {
            &&& headed matches Some(pair) ==> pair_view(pair) == pair_view(r)
            &&& headed is None ==> r.0@.len() == 0 && r.1@.len() == 0
        },
{
}

/// Of the answer of an API only front matter gives a title; without any all of it is the body.
pub proof fn law_api_answers_without_a_title_are_bodies(
    text: &str,
    trimmed: &str,
    in_front: Option<(String, String)>,
    r: (String, String),
)
    requires
        trimmed@ == trim(text@),
        call_ensures(try_parse_frontmatter, (trimmed,), in_front),
        call_ensures(parse_api_pr_output, (text,), r),
    ensures
        in_front matches Some(pair) ==> r.0@ == pair.0@ && r.1@ == trim(pair.1@),
        in_front is None && first_at(trimmed@, "\n---\n"@, 0) is None ==> r.0@.len() == 0 && r.1@
            == trimmed@,
{
}

// ---------------------------------------------------------------------------
// Names
// ---------------------------------------------------------------------------

proof fn lemma_before_query(a: Seq<char>, tail: Seq<char>)
    requires
        forall|i: int| 0 <= i < a.len() ==> a[i] != '?' && a[i] != '#',
        tail.len() > 0 ==> tail[0] == '?' || tail[0] == '#',
    ensures
        before_query(a + tail) == a,
    decreases a.len(),
{
    if a.len() == 0 {
        assert(a + tail =~= tail);
        assert(before_query(tail) =~= a);
    } else {
        assert((a + tail)[0] == a[0]);
        assert((a + tail).skip(1) =~= a.skip(1) + tail);
        lemma_before_query(a.skip(1), tail);
        assert(seq![a[0]] + a.skip(1) =~= a);
    }
}

proof fn lemma_after_last_slash(base: Seq<char>, segment: Seq<char>)
    requires
        forall|i: int| 0 <= i < segment.len() ==> segment[i] != '/',
        base.len() == 0 || base.last() == '/',
    ensures
        after_last_slash(base + segment) == segment,
    decreases segment.len(),
{
    let s = base + segment;
    if segment.len() == 0 {
        assert(s =~= base);
        assert(after_last_slash(s) =~= segment);
    } else {
        assert(s.last() == segment.last());
        assert(s.drop_last() =~= base + segment.drop_last());
        lemma_after_last_slash(base, segment.drop_last());
        assert(segment.drop_last().push(segment.last()) =~= segment);
    }
}

/// The number of a pull request is what follows the last slash of its address, up to a query or a
/// fragment; where nothing follows there is none.
pub proof fn law_requests_are_numbered_by_their_address(
    base: Seq<char>,
    segment: Seq<char>,
    tail: Seq<char>,
    url: &str,
    r: Option<String>,
)
    requires
        call_ensures(extract_last_path_segment, (url,), r),
        url@ == base + segment + tail,
        base.len() == 0 || base.last() == '/',
        forall|i: int| 0 <= i < base.len() ==> base[i] != '?' && base[i] != '#',
        forall|i: int|
            0 <= i < segment.len() ==> segment[i] != '?' && segment[i] != '#' && segment[i] != '/',
        tail.len() > 0 ==> tail[0] == '?' || tail[0] == '#',
    ensures
        segment.len() > 0 ==> (r matches Some(number) && number@ == segment),
        segment.len() == 0 ==> r is None,
{
    lemma_before_query(base + segment, tail);
    lemma_after_last_slash(base, segment);
}

/// A commit is called like its pull request, or like the given message where that has no title.
pub proof fn law_commits_are_called_like_their_request(
    ctx: WorktreeContext,
    message: &str,
    title: &str,
    body: &str,
    job: PrJob,
)
    requires
        call_ensures(PrJob::new, (ctx, message, title, body), job),
    ensures
        is_blank(title@) ==> job.commit_message@ == message@ && job.title@.len() == 0,
        !is_blank(title@) ==> job.commit_message@ == trim(title@) && job.title@ == trim(title@),
        job.body@ == body@ && job.ctx == ctx,
{
    crate::text::lemma_trim_blank(title@);
}

/// A pull request is a draft of the branch of the worktree; it has the title and the body that were
/// written for it, and those of its commits where it has no title.
pub proof fn law_requests_are_drafts_of_the_branch(
    job: &PrJob,
    commit: CommitOutcome,
    stage: &PrStage,
    call: ToolCall,
)
    requires
        *stage == PrStage::Create(commit),
        call_ensures(PrJob::call, (job, stage), call),
    ensures
        call@.0 == "gh"@ && call@.2 == job.ctx.path@,
        call@.1.len() >= 6 && call@.1[0] == "pr"@ && call@.1[1] == "create"@,
        call@.1[2] == "--head"@ && call@.1[3] == job.ctx.branch@ && call@.1[4] == "--draft"@,
        job.title@.len() == 0 ==> call@.1[5] == "--fill"@ && call@.1.len() == 6,
        job.title@.len() > 0 ==> call@.1.len() == 9 && call@.1[5] == "--title"@ && call@.1[6]
            == job.title@ && call@.1[7] == "--body"@ && call@.1[8] == job.body@,
{
}

// ---------------------------------------------------------------------------
// Attempts
// ---------------------------------------------------------------------------

/// Staged changes are committed exactly if there are any.
pub proof fn law_changes_are_committed(success: bool, stdout: Vec<u8>, stderr: Vec<u8>, r: PrAdvance)
    requires
        call_ensures(advance, (PrStage::Diff, &ToolReply::Exited { success, stdout, stderr }), r),
    ensures
        success ==> r == PrAdvance::Next(PrStage::BaseHead(CommitOutcome::NoChanges)),
        !success ==> r == PrAdvance::Next(PrStage::Commit),
{
}

/// A branch is pushed exactly if it has commits beyond its base; without any the attempt ends
/// without a pull request.
pub proof fn law_branches_with_commits_are_pushed(
    commit: CommitOutcome,
    fork: String,
    stdout: Vec<u8>,
    stderr: Vec<u8>,
    text: &str,
    counted: Result<usize, CruiseError>,
    r: PrAdvance,
)
    requires
        text@ == trim(utf8_lossy(stdout@)) && text@.len() > 0,
        call_ensures(parse_commit_count, (text,), counted),
        call_ensures(
            advance,
            (PrStage::Count(commit, fork), &ToolReply::Exited { success: true, stdout, stderr }),
            r,
        ),
    ensures
        counted matches Ok(n) ==> {
            &&& n > 0 ==> r == PrAdvance::Next(PrStage::Push(commit))
            &&& n == 0 ==> r == PrAdvance::Done(PrAttemptOutcome::SkippedNoCommits)
        },
        counted is Err ==> r is Failed,
{
}

/// The number of commits is read as it is written.
pub proof fn law_commit_counts_are_read(n: nat, text: &str, r: Result<usize, CruiseError>)
    requires
        call_ensures(parse_commit_count, (text,), r),
        text@ == decimal(n),
        n <= usize::MAX,
    ensures
        r matches Ok(count) && count == n,
{
    crate::text::lemma_decimal(n);
}

/// A branch that could not be pushed gets no pull request; one that was pushed gets one.
pub proof fn law_pushed_branches_get_a_request(
    commit: CommitOutcome,
    reply: &ToolReply,
    r: PrAdvance,
)
    requires
        call_ensures(advance, (PrStage::Push(commit), reply), r),
    ensures
        (*reply matches ToolReply::Exited { success, stdout, stderr } && success) ==> r
            == PrAdvance::Next(PrStage::Create(commit)),
        !(*reply matches ToolReply::Exited { success, stdout, stderr } && success)
            ==> r is Failed,
{
}

/// The address of a pull request is what was written when it was created, or else when it was looked
/// for; a request that is nowhere is no failure of the attempt, but is said not to be there.
pub proof fn law_requests_are_known_by_what_was_written(
    commit: CommitOutcome,
    why: String,
    success: bool,
    stdout: Vec<u8>,
    stderr: Vec<u8>,
    r: PrAdvance,
    s: PrAdvance,
)
    requires
        call_ensures(
            advance,
            (PrStage::Create(commit), &ToolReply::Exited { success, stdout, stderr }),
            r,
        ),
        call_ensures(
            advance,
            (PrStage::ViewUrl(commit, why), &ToolReply::Exited { success, stdout, stderr }),
            s,
        ),
    ensures
        success && trim(utf8_lossy(stdout@)).len() > 0 ==> {
            &&& r matches PrAdvance::Done(PrAttemptOutcome::Created { url, commit_outcome }) && url@
                == trim(utf8_lossy(stdout@)) && commit_outcome == commit
            &&& s matches PrAdvance::Done(PrAttemptOutcome::Created { url, commit_outcome }) && url@
                == trim(utf8_lossy(stdout@)) && commit_outcome == commit
        },
        !(success && trim(utf8_lossy(stdout@)).len() > 0) ==> {
            &&& r matches PrAdvance::Next(PrStage::ViewUrl(c, text)) && c == commit && text@ == trim(
                utf8_lossy(stderr@),
            )
            &&& s matches PrAdvance::Done(PrAttemptOutcome::CreateFailed { error, commit_outcome })
        },
{
}

/// What git wrote counts if it succeeded and wrote anything.
pub proof fn law_git_has_to_answer(
    args: &str,
    context: &str,
    reply: &ToolReply,
    r: Result<String, CruiseError>,
)
    requires
        call_ensures(git_stdout, (args, context, reply), r),
    ensures
        r is Ok <==> (*reply matches ToolReply::Exited { success, stdout, stderr } && success && trim(
            utf8_lossy(stdout@),
        ).len() > 0),
        r matches Ok(out) ==> (*reply matches ToolReply::Exited { success, stdout, stderr } && out@
            == trim(utf8_lossy(stdout@))),
{
}

/// `gh` is there if it can be called and succeeds.
pub proof fn law_gh_is_there_if_it_answers(reply: &ToolReply, r: Result<(), CruiseError>)
    requires
        call_ensures(ensure_gh_available, (reply,), r),
    ensures
        r is Ok <==> (*reply matches ToolReply::Exited { success, stdout, stderr } && success),
{
}

// ---------------------------------------------------------------------------
// What is known afterwards
// ---------------------------------------------------------------------------

proof fn lemma_request_names_differ()
    ensures
        "pr.number"@ != "pr.url"@,
{
    reveal_strlit("pr.number");
    reveal_strlit("pr.url");
    assert("pr.number"@.len() != "pr.url"@.len());
}

/// A pull request that was created is known to the session and to the steps that follow; one that
/// was not leaves both as they were, and is an error only where there was nothing to request.
pub proof fn law_created_requests_are_known(
    outcome: PrAttemptOutcome,
    branch: &str,
    vars: &mut VariableStore,
    session: &mut SessionState,
    r: Result<PrFollowUp, CruiseError>,
)
    requires
        call_ensures(note_pr_attempt, (outcome, branch, vars, session), r),
    ensures
        outcome matches PrAttemptOutcome::Created { url, commit_outcome } ==> {
            &&& final(session).pr_url == Some(url)
            &&& r matches Ok(PrFollowUp::RunAfterSteps(_))
            &&& final(vars)@.named.dom().contains("pr.url"@)
            &&& final(vars)@.named["pr.url"@] matches crate::variable::NamedVariable::Value(v) && v@
                == url@
        },
        !(outcome is Created) ==> *final(session) == *old(session) && final(vars)@ == old(vars)@,
        r is Err <==> outcome is SkippedNoCommits,
        *final(session) == (SessionState { pr_url: final(session).pr_url, ..*old(session) }),
{
    lemma_request_names_differ();
}

/// The prompt for a pull request speaks of the language of the workflow, and of English where it has
/// none.
pub proof fn law_requests_are_written_in_the_configured_language(
    vars: &mut VariableStore,
    language: &str,
    template: &str,
    r: Result<String, CruiseError>,
)
    requires
        call_ensures(build_pr_prompt, (vars, language, template), r),
    ensures
        final(vars)@.named["pr.language"@] matches crate::variable::NamedVariable::Value(v) && (
        is_blank(language@) ==> v@ == "English"@) && (!is_blank(language@) ==> v@ == trim(
            language@,
        )),
        final(vars)@.input == old(vars)@.input && final(vars)@.prev_output == old(vars)@.prev_output,
        r matches Ok(text) ==> final(vars)@.expand(template@) == Ok::<Seq<char>, Seq<char>>(text@),
        r is Ok <==> final(vars)@.expand(template@) is Ok,
{
}

/// The API is asked for a description where there is one and the plan is known; otherwise the
/// command of the workflow is.
pub proof fn law_descriptions_are_asked_of_the_api_first(
    ctx: &WorktreeContext,
    compiled: &CompiledWorkflow,
    template: &str,
    has_api: bool,
    vars: &mut VariableStore,
    session: &SessionState,
    r: PublishStep,
)
    requires
        call_ensures(first_publish_stage, (ctx, compiled, template, has_api, vars, session), r),
    ensures
        (r.next matches PublishNext::Go(PublishStage::AskApi(_))) <==> has_api && old(vars)@.lookup("plan"@) is Some,
        old(vars)@.lookup("plan"@) matches Some(path) ==> (has_api ==> (
        r.next matches PublishNext::Go(PublishStage::AskApi(p)) && p@ == path)),
{
}

/// The title and the body that the API gave are those of the attempt; where it failed the command of
/// the workflow is asked, or the attempt goes on without either.
pub proof fn law_api_descriptions_are_used(
    ctx: &WorktreeContext,
    compiled: &CompiledWorkflow,
    template: &str,
    path: String,
    described: Result<(String, String), CruiseError>,
    vars: &mut VariableStore,
    session: &mut SessionState,
    r: PublishStep,
)
    requires
        call_ensures(
            advance_publish,
            (
                ctx,
                compiled,
                template,
                PublishStage::AskApi(path),
                PublishEvent::Described(described),
                vars,
                session,
            ),
            r,
        ),
    ensures
        *final(session) == *old(session),
        described matches Ok((title, body)) ==> (r.next matches PublishNext::Go(
            PublishStage::Attempt(job, stage),
        ) && stage is Add && job.ctx == *ctx && job.title@ == trim(title@) && job.body@ == body@
            && final(vars)@ == old(vars)@),
        described is Err ==> !(r.next is End),
{
}

/// The title and the body that the command of the workflow gave are those of the attempt; a command
/// that failed gives neither, and the attempt goes on without.
pub proof fn law_answers_of_the_command_are_used(
    ctx: &WorktreeContext,
    compiled: &CompiledWorkflow,
    template: &str,
    request: PromptRequest,
    result: Result<PromptResult, CruiseError>,
    output: &str,
    described: (String, String),
    vars: &mut VariableStore,
    session: &mut SessionState,
    r: PublishStep,
)
    requires
        result matches Ok(out) ==> output@ == out.output@,
        result is Err ==> output@.len() == 0,
        call_ensures(parse_pr_metadata, (output,), described),
        call_ensures(
            advance_publish,
            (
                ctx,
                compiled,
                template,
                PublishStage::AskCommand(request),
                PublishEvent::Prompted(result),
                vars,
                session,
            ),
            r,
        ),
    ensures
        *final(session) == *old(session) && final(vars)@ == old(vars)@,
        r.next matches PublishNext::Go(PublishStage::Attempt(job, stage)) && stage is Add && job.ctx
            == *ctx && job.title@ == trim(described.0@) && job.body@ == described.1@,
        result is Err ==> r.said@.len() == 1,
{
    reveal_strlit("");
    assert(result is Err ==> output@ =~= ""@);
    assert(crate::run_cmd::publish::messages(r.said@).len() == r.said@.len());
}

/// A branch that was pushed is requested, and a request that could not be created is no failure of the
/// run; where there was nothing to request the run fails.
pub proof fn law_attempts_end_the_publication(
    ctx: &WorktreeContext,
    compiled: &CompiledWorkflow,
    template: &str,
    job: PrJob,
    stage: PrStage,
    reply: ToolReply,
    a: PrAdvance,
    vars: &mut VariableStore,
    session: &mut SessionState,
    r: PublishStep,
)
    requires
        call_ensures(advance, (stage, &reply), a),
        stage is Push || stage is Add,
        call_ensures(
            advance_publish,
            (
                ctx,
                compiled,
                template,
                PublishStage::Attempt(job, stage),
                PublishEvent::Replied(reply),
                vars,
                session,
            ),
            r,
        ),
    ensures
        *final(session) == *old(session),
        a matches PrAdvance::Next(next) ==> (r.next matches PublishNext::Go(
            PublishStage::Attempt(same, then_stage),
        ) && same == job && then_stage == next),
        a is Failed ==> (r.next matches PublishNext::End(Err(_))),
{
}

/// A request that was created is followed by the steps for it, if there are any; one that was not is
/// no failure of the run.
pub proof fn law_created_requests_are_followed_by_their_steps(
    ctx: &WorktreeContext,
    compiled: &CompiledWorkflow,
    template: &str,
    job: PrJob,
    commit: CommitOutcome,
    why: String,
    success: bool,
    stdout: Vec<u8>,
    stderr: Vec<u8>,
    vars: &mut VariableStore,
    session: &mut SessionState,
    r: PublishStep,
)
    requires
        call_ensures(
            advance_publish,
            (
                ctx,
                compiled,
                template,
                PublishStage::Attempt(job, PrStage::ViewUrl(commit, why)),
                PublishEvent::Replied(ToolReply::Exited { success, stdout, stderr }),
                vars,
                session,
            ),
            r,
        ),
    ensures
        ({
            let url = trim(utf8_lossy(stdout@));
            let steps = step_list(compiled.after_pr);
            if success && url.len() > 0 {
                &&& final(session).pr_url matches Some(u) && u@ == url
                &&& steps.len() > 0 ==> (r.next matches PublishNext::Go(
                    PublishStage::AfterSteps(first),
                ) && first@ == steps[0].0)
                &&& steps.len() == 0 ==> r.next == PublishNext::End(Ok(()))
            } else {
                *final(session) == *old(session) && r.next == PublishNext::End(Ok(()))
            }
        }),
{
}

/// Steps that follow the pull request cannot make the run fail any more.
pub proof fn law_later_steps_do_not_undo_the_request(
    ctx: &WorktreeContext,
    compiled: &CompiledWorkflow,
    template: &str,
    first: String,
    result: Result<ExecutionResult, CruiseError>,
    vars: &mut VariableStore,
    session: &mut SessionState,
    r: PublishStep,
)
    requires
        call_ensures(
            advance_publish,
            (
                ctx,
                compiled,
                template,
                PublishStage::AfterSteps(first),
                PublishEvent::Executed(result),
                vars,
                session,
            ),
            r,
        ),
    ensures
        r.next == PublishNext::End(Ok(())),
        *final(session) == *old(session),
        result is Ok ==> r.said@.len() == 0,
        result matches Err(e) ==> (!(e is StepPaused) ==> r.said@.len() == 1),
{
    assert(crate::run_cmd::publish::messages(r.said@).len() == r.said@.len());
}

} // verus!
