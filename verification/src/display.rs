//! Texts shown to the user: shortened, wrapped and framed.

use vstd::prelude::*;

use crate::span::{put, put_plain, span_views, Span, SpanView, Tone};
use crate::text::{
    chars_of, lines, lines_of, opt_str_view, string_of, trim, trimmed, views,
};

verus! {

// ---------------------------------------------------------------------------
// Shortening
// ---------------------------------------------------------------------------

/// The first line of `s`.
pub open spec fn first_line(s: Seq<char>) -> Seq<char> {
    if lines(s).len() > 0 {
        lines(s)[0]
    } else {
        s
    }
}

/// The first line of the trimmed text, cut to `max` characters with an ellipsis behind them if
/// it is longer.
pub open spec fn truncated(s: Seq<char>, max: nat) -> Seq<char> {
    let line = first_line(trim(s));
    if line.len() <= max {
        line
    } else {
        line.take(max as int) + "…"@
    }
}

/// Truncate `s` to `max` characters (first line only), appending `…` if truncated.
pub fn truncate(s: &str, max: usize) -> (r: String)
    ensures
        r@ == truncated(s@, max as nat),
{
    let t = trimmed(s);
    let all = lines_of(t.as_str());
    let line: String = if all.len() > 0 {
        assert(views(all@)[0] == all@[0]@);
        all[0].clone()
    } else {
        t
    };
    let v = chars_of(line.as_str());
    if v.len() <= max {
        line
    } else {
        let mut r = string_of(v.as_slice(), 0, max);
        r.append("…");
        r
    }
}

/// A shortened text has at most one character more than it may have, the ellipsis, and is on
/// one line.
pub proof fn law_truncated_is_short(s: Seq<char>, max: nat)
    ensures
        truncated(s, max).len() <= max + 1,
        forall|i: int| 0 <= i < truncated(s, max).len() ==> truncated(s, max)[i] != '\n',
{
    reveal_strlit("…");
    let t = trim(s);
    lemma_lines_hold_no_newline(t, seq![]);
    let line = first_line(t);
    if lines(t).len() == 0 {
        lemma_no_lines_means_empty(t, seq![]);
    } else {
        assert(lines(t)[0] == line);
    }
}

proof fn lemma_no_lines_means_empty(s: Seq<char>, cur: Seq<char>)
    requires
        crate::text::lines_from(s, cur).len() == 0,
    ensures
        s.len() == 0,
        cur.len() == 0,
    decreases s.len(),
{
    if s.len() > 0 && s[0] != '\n' {
        lemma_no_lines_means_empty(s.skip(1), cur.push(s[0]));
    }
}

proof fn lemma_lines_hold_no_newline(s: Seq<char>, cur: Seq<char>)
    requires
        forall|i: int| 0 <= i < cur.len() ==> cur[i] != '\n',
    ensures
        forall|k: int, i: int|
            0 <= k < crate::text::lines_from(s, cur).len() && 0 <= i < crate::text::lines_from(
                s,
                cur,
            )[k].len() ==> (#[trigger] crate::text::lines_from(s, cur)[k][i]) != '\n',
    decreases s.len(),
{
    let all = crate::text::lines_from(s, cur);
    if s.len() > 0 {
        if s[0] == '\n' {
            lemma_lines_hold_no_newline(s.skip(1), seq![]);
            let rest = crate::text::lines_from(s.skip(1), seq![]);
            assert forall|k: int, i: int|
                0 <= k < all.len() && 0 <= i < all[k].len() implies (#[trigger] all[k][i])
                != '\n' by {
                if k > 0 {
                    assert(all[k] == rest[k - 1]);
                    assert(rest[k - 1][i] != '\n');
                }
            }
        } else {
            lemma_lines_hold_no_newline(s.skip(1), cur.push(s[0]));
            assert(all == crate::text::lines_from(s.skip(1), cur.push(s[0])));
        }
    } else if cur.len() > 0 {
        assert(all[0] == cur);
    }
}

// ---------------------------------------------------------------------------
// Wrapping
// ---------------------------------------------------------------------------

/// The columns that `console::measure_text_width` gives for a text.
pub uninterp spec fn text_width(s: Seq<char>) -> nat;

/// A text of nothing but printable ASCII characters.
pub open spec fn is_printable_ascii(s: Seq<char>) -> bool {
    forall|i: int| 0 <= i < s.len() ==> ' ' <= #[trigger] s[i] <= '~'
}

/// `console::measure_text_width` counts the columns of a text on a terminal; terminal control
/// sequences take none. The result depends on the text alone, and a text of printable ASCII
/// characters takes one column for each.
#[verifier::external_body]
pub(crate) fn measure(s: &str) -> (r: usize)
    ensures
        r == text_width(s@),
        is_printable_ascii(s@) ==> r == s@.len(),
{
    console::measure_text_width(s)
}

/// The pieces of `cur + s` that end behind each `sep`, where `cur` holds none; a rest without
/// one comes last.
pub open spec fn pieces_from(s: Seq<char>, sep: char, cur: Seq<char>) -> Seq<Seq<char>>
    decreases s.len(),
{
    if s.len() == 0 {
        if cur.len() == 0 {
            seq![]
        } else {
            seq![cur]
        }
    } else if s[0] == sep {
        seq![cur.push(s[0])] + pieces_from(s.skip(1), sep, seq![])
    } else {
        pieces_from(s.skip(1), sep, cur.push(s[0]))
    }
}

/// The pieces of a line that end behind each blank.
pub open spec fn pieces(line: Seq<char>) -> Seq<Seq<char>> {
    pieces_from(line, ' ', seq![])
}

/// The pieces of a line that end behind each blank, as `str::split_inclusive` gives them.
fn pieces_of(line: &str) -> (r: Vec<String>)
    ensures
        views(r@) == pieces(line@),
{
    let v = chars_of(line);
    let mut r: Vec<String> = Vec::new();
    let mut start: usize = 0;
    let mut i: usize = 0;
    assert(v@.skip(0) == v@);
    assert(v@.subrange(0, 0) =~= seq![]);
    assert(views(r@) + pieces(line@) =~= pieces(line@));
    while i < v.len()
        invariant
            start <= i <= v@.len(),
            v@ == line@,
            views(r@) + pieces_from(
                v@.skip(i as int),
                ' ',
                v@.subrange(start as int, i as int),
            ) == pieces(line@),
        decreases v@.len() - i,
    {
        let ghost cur = v@.subrange(start as int, i as int);
        let ghost done = views(r@);
        assert(v@.skip(i as int).skip(1) == v@.skip(i + 1));
        assert(v@.subrange(start as int, i + 1) == cur.push(v@[i as int]));
        if v[i] == ' ' {
            let piece = string_of(v.as_slice(), start, i + 1);
            r.push(piece);
            assert(views(r@) == done.push(piece@));
            assert(done + (seq![piece@] + pieces_from(v@.skip(i + 1), ' ', seq![])) == done.push(
                piece@,
            ) + pieces_from(v@.skip(i + 1), ' ', seq![]));
            i += 1;
            start = i;
            assert(v@.subrange(start as int, i as int) =~= seq![]);
        } else {
            i += 1;
        }
    }
    assert(v@.skip(i as int) =~= seq![]);
    if start < i {
        let piece = string_of(v.as_slice(), start, i);
        let ghost done = views(r@);
        r.push(piece);
        assert(views(r@) == done.push(piece@));
        assert(done + seq![piece@] == done.push(piece@));
    } else {
        assert(views(r@) + Seq::<Seq<char>>::empty() == views(r@));
    }
    r
}

/// A word with the columns that it takes, as a whole and character by character.
#[derive(Debug)]
pub struct Word {
    pub chars: Vec<char>,
    pub width: usize,
    pub char_widths: Vec<usize>,
}

impl Word {
    /// Every character has its width.
    pub open spec fn wf(self) -> bool {
        self.chars@.len() == self.char_widths@.len()
    }
}

/// A word with the columns that it takes, as mathematical values.
pub struct WordView {
    pub chars: Seq<char>,
    pub width: int,
    pub char_widths: Seq<int>,
}

impl View for Word {
    type V = WordView;

    open spec fn view(&self) -> WordView {
        WordView {
            chars: self.chars@,
            width: self.width as int,
            char_widths: self.char_widths@.map_values(|w: usize| w as int),
        }
    }
}

/// The words as mathematical values.
pub open spec fn word_views(words: Seq<Word>) -> Seq<WordView> {
    words.map_values(|w: Word| w@)
}

/// A line that is being wrapped: the chunks that are full, each with the columns of its parts,
/// and the chunk that is being filled.
pub struct Wrapping {
    pub chunks: Seq<(Seq<char>, int)>,
    pub current: Seq<char>,
    pub used: int,
}

impl Wrapping {
    /// Nothing is wrapped yet.
    pub open spec fn start() -> Wrapping {
        Wrapping { chunks: seq![], current: seq![], used: 0 }
    }

    /// Begins a new chunk, unless the current one is empty.
    pub open spec fn flushed(self) -> Wrapping {
        if self.current.len() == 0 {
            self
        } else {
            Wrapping {
                chunks: self.chunks.push((self.current, self.used)),
                current: seq![],
                used: 0,
            }
        }
    }

    /// Adds a text to the current chunk, or to a new one if it does not fit.
    pub open spec fn plus(self, text: Seq<char>, columns: int, width: int) -> Wrapping {
        let w = if self.used + columns > width {
            self.flushed()
        } else {
            self
        };
        Wrapping { chunks: w.chunks, current: w.current + text, used: w.used + columns }
    }

    /// Adds the first `n` characters of a word one by one.
    pub open spec fn plus_chars(self, word: WordView, n: int, width: int) -> Wrapping
        decreases n,
    {
        if n <= 0 {
            self
        } else {
            self.plus_chars(word, n - 1, width).plus(
                seq![word.chars[n - 1]],
                word.char_widths[n - 1],
                width,
            )
        }
    }

    /// Adds a word: as a whole, or in a new chunk and character by character if it is wider
    /// than a chunk may be.
    pub open spec fn plus_word(self, word: WordView, width: int) -> Wrapping {
        if word.width > width {
            self.flushed().plus_chars(word, word.chars.len() as int, width)
        } else {
            self.plus(word.chars, word.width, width)
        }
    }

    /// Adds words.
    pub open spec fn plus_words(self, words: Seq<WordView>, width: int) -> Wrapping
        decreases words.len(),
    {
        if words.len() == 0 {
            self
        } else {
            self.plus_words(words.drop_last(), width).plus_word(words.last(), width)
        }
    }
}

/// The chunks that the words are wrapped into.
pub open spec fn chunks_of(words: Seq<WordView>, width: int) -> Seq<Seq<char>> {
    Wrapping::start().plus_words(words, width).flushed().chunks.map_values(
        |c: (Seq<char>, int)| c.0,
    )
}

/// A line that is being wrapped.
struct Wrapper {
    chunks: Vec<String>,
    current: String,
    empty: bool,
    used: usize,
}

impl Wrapper {
    /// It holds what `w` says.
    spec fn is(self, w: Wrapping) -> bool {
        &&& views(self.chunks@) == w.chunks.map_values(|c: (Seq<char>, int)| c.0)
        &&& self.current@ == w.current
        &&& self.empty == (w.current.len() == 0)
        &&& self.used == w.used
        &&& self.empty ==> self.used == 0
    }

    fn flush(&mut self, Ghost(w): Ghost<Wrapping>)
        requires
            old(self).is(w),
        ensures
            final(self).is(w.flushed()),
    {
        if !self.empty {
            let mut chunk = String::new();
            std::mem::swap(&mut chunk, &mut self.current);
            let ghost done = views(self.chunks@);
            self.chunks.push(chunk);
            self.empty = true;
            self.used = 0;
            assert(views(self.chunks@) =~= done.push(chunk@));
            assert(w.flushed().chunks.map_values(|c: (Seq<char>, int)| c.0) =~= done.push(
                w.current,
            ));
        }
    }

    fn add_text(&mut self, Ghost(w): Ghost<Wrapping>, text: &str, columns: usize, width: usize)
        requires
            old(self).is(w),
            text@.len() > 0,
        ensures
            final(self).is(w.plus(text@, columns as int, width as int)),
    {
        let ghost mut now = w;
        if self.used > width || columns > width - self.used {
            self.flush(Ghost(w));
            proof {
                now = w.flushed();
            }
        }
        assert(self.used + columns <= usize::MAX);
        self.current.append(text);
        self.empty = false;
        self.used = self.used + columns;
    }

    fn add_word(&mut self, Ghost(w): Ghost<Wrapping>, word: &Word, width: usize)
        requires
            old(self).is(w),
            word.wf(),
            word.chars@.len() > 0,
        ensures
            final(self).is(w.plus_word(word@, width as int)),
    {
        if word.width > width {
            self.flush(Ghost(w));
            let mut i: usize = 0;
            while i < word.chars.len()
                invariant
                    i <= word.chars@.len(),
                    word.wf(),
                    self.is(w.flushed().plus_chars(word@, i as int, width as int)),
                decreases word.chars@.len() - i,
            {
                let mut one = String::new();
                one.push(word.chars[i]);
                assert(one@ =~= seq![word@.chars[i as int]]);
                let columns: usize = word.char_widths[i];
                assert(word@.char_widths[i as int] == columns);
                self.add_text(
                    Ghost(w.flushed().plus_chars(word@, i as int, width as int)),
                    one.as_str(),
                    columns,
                    width,
                );
                i += 1;
            }
        } else {
            let text = string_of(word.chars.as_slice(), 0, word.chars.len());
            assert(text@ =~= word.chars@);
            self.add_text(Ghost(w), text.as_str(), word.width, width);
        }
    }
}

/// Wraps words, given with the columns that they take, into chunks.
///
/// A word that fits behind the current chunk is added to it, else it begins a new one; a word
/// that is wider than a chunk may be is split between characters.
pub fn wrap_words(words: &Vec<Word>, width: usize) -> (r: Vec<String>)
    requires
        forall|i: int|
            0 <= i < words@.len() ==> (#[trigger] words@[i]).wf() && words@[i].chars@.len() > 0,
    ensures
        views(r@) == chunks_of(word_views(words@), width as int),
{
    let ghost all = word_views(words@);
    let mut w = Wrapper { chunks: Vec::new(), current: String::new(), empty: true, used: 0 };
    let mut i: usize = 0;
    proof {
        assert(views(w.chunks@) =~= Wrapping::start().chunks.map_values(
            |c: (Seq<char>, int)| c.0,
        ));
        assert(all.take(0) =~= seq![]);
        assert(w.is(Wrapping::start()));
    }
    while i < words.len()
        invariant
            i <= words@.len(),
            all == word_views(words@),
            forall|k: int|
                0 <= k < words@.len() ==> (#[trigger] words@[k]).wf() && words@[k].chars@.len() > 0,
            w.is(Wrapping::start().plus_words(all.take(i as int), width as int)),
        decreases words@.len() - i,
    {
        let ghost before = Wrapping::start().plus_words(all.take(i as int), width as int);
        assert(all.take(i + 1).drop_last() =~= all.take(i as int));
        assert(all.take(i + 1).last() == words@[i as int]@);
        w.add_word(Ghost(before), &words[i], width);
        i += 1;
    }
    assert(all.take(i as int) =~= all);
    w.flush(Ghost(Wrapping::start().plus_words(all, width as int)));
    w.chunks
}

/// The word with its measured widths.
pub open spec fn measured_word(word: Seq<char>) -> WordView {
    WordView {
        chars: word,
        width: text_width(word) as int,
        char_widths: Seq::new(word.len(), |i: int| text_width(seq![word[i]]) as int),
    }
}

/// The words of a line with their measured widths.
pub open spec fn measured_words(line: Seq<char>) -> Seq<WordView> {
    pieces(line).map_values(|w: Seq<char>| measured_word(w))
}

/// The chunks that a line is wrapped into; an empty line is one empty chunk.
pub open spec fn wrapped(line: Seq<char>, width: int) -> Seq<Seq<char>> {
    if line.len() == 0 {
        seq![seq![]]
    } else {
        chunks_of(measured_words(line), width)
    }
}

/// Measures a word.
fn measure_word(text: &str) -> (r: Word)
    ensures
        r.wf(),
        r.chars@ == text@,
        r@ == measured_word(text@),
        is_printable_ascii(text@) ==> is_counted(r@),
{
    let chars = chars_of(text);
    let width = measure(text);
    let mut char_widths: Vec<usize> = Vec::new();
    let mut i: usize = 0;
    while i < chars.len()
        invariant
            i <= chars@.len(),
            chars@ == text@,
            char_widths@.len() == i,
            forall|k: int|
                0 <= k < i ==> #[trigger] char_widths@[k] == text_width(seq![text@[k]]),
            is_printable_ascii(text@) ==> forall|k: int|
                0 <= k < i ==> #[trigger] char_widths@[k] == 1,
        decreases chars@.len() - i,
    {
        let mut one = String::new();
        one.push(chars[i]);
        assert(one@ =~= seq![text@[i as int]]);
        assert(is_printable_ascii(text@) ==> is_printable_ascii(one@));
        char_widths.push(measure(one.as_str()));
        i += 1;
    }
    let r = Word { chars, width, char_widths };
    assert(r@.char_widths =~= measured_word(text@).char_widths);
    r
}

proof fn lemma_pieces_are_not_empty(s: Seq<char>, sep: char, cur: Seq<char>)
    ensures
        forall|k: int|
            0 <= k < pieces_from(s, sep, cur).len() ==> (#[trigger] pieces_from(
                s,
                sep,
                cur,
            )[k]).len() > 0,
    decreases s.len(),
{
    if s.len() > 0 {
        if s[0] == sep {
            lemma_pieces_are_not_empty(s.skip(1), sep, seq![]);
            let all = pieces_from(s, sep, cur);
            let rest = pieces_from(s.skip(1), sep, seq![]);
            assert forall|k: int| 0 <= k < all.len() implies (#[trigger] all[k]).len() > 0 by {
                if k > 0 {
                    assert(all[k] == rest[k - 1]);
                }
            }
        } else {
            lemma_pieces_are_not_empty(s.skip(1), sep, cur.push(s[0]));
            assert(pieces_from(s, sep, cur) == pieces_from(s.skip(1), sep, cur.push(s[0])));
        }
    } else if cur.len() > 0 {
        assert(pieces_from(s, sep, cur)[0] == cur);
    }
}

/// Wrap a single line into chunks of at most `width` columns.
pub fn wrap_line(line: &str, width: usize) -> (r: Vec<String>)
    ensures
        views(r@) == wrapped(line@, width as int),
        // A chunk of printable ASCII characters is no longer than it is wide.
        is_printable_ascii(line@) ==> forall|k: int|
            0 <= k < r@.len() ==> (#[trigger] r@[k])@.len() <= width || r@[k]@.len() <= 1,
{
    if line.is_empty() {
        let mut r: Vec<String> = Vec::new();
        r.push(String::new());
        assert(views(r@) =~= seq![Seq::<char>::empty()]);
        return r;
    }
    let parts = pieces_of(line);
    let mut words: Vec<Word> = Vec::new();
    let mut i: usize = 0;
    proof {
        lemma_pieces_are_not_empty(line@, ' ', seq![]);
        if is_printable_ascii(line@) {
            lemma_pieces_are_printable(line@, ' ', seq![]);
        }
    }
    while i < parts.len()
        invariant
            i <= parts@.len(),
            views(parts@) == pieces(line@),
            forall|k: int| 0 <= k < pieces(line@).len() ==> (#[trigger] pieces(line@)[k]).len() > 0,
            words@.len() == i,
            forall|k: int|
                0 <= k < i ==> (#[trigger] words@[k]).wf() && words@[k].chars@.len() > 0
                    && words@[k]@ == measured_word(pieces(line@)[k]),
            is_printable_ascii(line@) ==> forall|k: int|
                0 <= k < pieces(line@).len() ==> is_printable_ascii(#[trigger] pieces(line@)[k]),
            is_printable_ascii(line@) ==> forall|k: int|
                0 <= k < i ==> is_counted((#[trigger] words@[k])@),
        decreases parts@.len() - i,
    {
        assert(pieces(line@)[i as int] == parts@[i as int]@);
        words.push(measure_word(parts[i].as_str()));
        i += 1;
    }
    assert(word_views(words@) =~= measured_words(line@));
    let r = wrap_words(&words, width);
    proof {
        if is_printable_ascii(line@) {
            let all = word_views(words@);
            assert forall|k: int| 0 <= k < all.len() implies is_counted(#[trigger] all[k]) by {
                assert(all[k] == words@[k]@);
            }
            let w = Wrapping::start().plus_words(all, width as int);
            lemma_words_fit(Wrapping::start(), all, width as int);
            lemma_words_are_counted(Wrapping::start(), all, width as int);
            let chunks = w.flushed().chunks;
            assert(views(r@) == chunks.map_values(|c: (Seq<char>, int)| c.0));
            assert(views(r@).len() == chunks.len());
            assert forall|k: int| 0 <= k < r@.len() implies (#[trigger] r@[k])@.len() <= width
                || r@[k]@.len() <= 1 by {
                assert(views(r@)[k] == r@[k]@);
                assert(chunks[k].0 == r@[k]@);
            }
        }
    }
    r
}

// ---------------------------------------------------------------------------
// Laws of wrapping
// ---------------------------------------------------------------------------

/// A word that takes one column for each of its characters.
pub open spec fn is_counted(word: WordView) -> bool {
    &&& word.width == word.chars.len()
    &&& word.char_widths.len() == word.chars.len()
    &&& forall|i: int| 0 <= i < word.char_widths.len() ==> #[trigger] word.char_widths[i] == 1
}

impl Wrapping {
    /// Every chunk takes at most `width` columns or is a single character.
    pub open spec fn fits(self, width: int) -> bool {
        &&& forall|k: int|
            0 <= k < self.chunks.len() ==> (#[trigger] self.chunks[k]).1 <= width
                || self.chunks[k].0.len() == 1
        &&& self.used <= width || self.current.len() == 1
        &&& self.current.len() == 0 ==> self.used == 0
    }

    /// Every chunk takes one column for each of its characters.
    pub open spec fn counted(self) -> bool {
        &&& forall|k: int|
            0 <= k < self.chunks.len() ==> (#[trigger] self.chunks[k]).1 == self.chunks[k].0.len()
        &&& self.used == self.current.len()
    }

    /// All that was wrapped so far, in order.
    pub open spec fn content(self) -> Seq<char> {
        chunk_text(self.chunks) + self.current
    }
}

/// The texts of the chunks, one after the other.
pub open spec fn chunk_text(chunks: Seq<(Seq<char>, int)>) -> Seq<char>
    decreases chunks.len(),
{
    if chunks.len() == 0 {
        seq![]
    } else {
        chunk_text(chunks.drop_last()) + chunks.last().0
    }
}

/// The texts, one after the other.
pub open spec fn concatenation(parts: Seq<Seq<char>>) -> Seq<char>
    decreases parts.len(),
{
    if parts.len() == 0 {
        seq![]
    } else {
        concatenation(parts.drop_last()) + parts.last()
    }
}

proof fn lemma_flush(w: Wrapping, width: int)
    ensures
        w.flushed().content() == w.content(),
        w.fits(width) && 0 <= width ==> w.flushed().fits(width),
        w.counted() ==> w.flushed().counted(),
{
    if w.current.len() > 0 {
        let f = w.flushed();
        assert(f.chunks.drop_last() =~= w.chunks);
        assert(f.content() =~= w.content());
    }
}

proof fn lemma_plus(w: Wrapping, text: Seq<char>, columns: int, width: int)
    requires
        text.len() > 0,
    ensures
        w.plus(text, columns, width).content() == w.content() + text,
        w.fits(width) && 0 <= width && (columns <= width || text.len() == 1) ==> w.plus(
            text,
            columns,
            width,
        ).fits(width),
        w.counted() && columns == text.len() ==> w.plus(text, columns, width).counted(),
{
    lemma_flush(w, width);
    let f = if w.used + columns > width {
        w.flushed()
    } else {
        w
    };
    let p = w.plus(text, columns, width);
    assert(p.content() =~= f.content() + text);
}

proof fn lemma_plus_chars(w: Wrapping, word: WordView, n: int, width: int)
    requires
        0 <= n <= word.chars.len(),
    ensures
        w.plus_chars(word, n, width).content() == w.content() + word.chars.take(n),
        w.fits(width) && 0 <= width ==> w.plus_chars(word, n, width).fits(width),
        w.counted() && is_counted(word) ==> w.plus_chars(word, n, width).counted(),
    decreases n,
{
    if n > 0 {
        lemma_plus_chars(w, word, n - 1, width);
        lemma_plus(
            w.plus_chars(word, n - 1, width),
            seq![word.chars[n - 1]],
            word.char_widths[n - 1],
            width,
        );
        assert(w.content() + word.chars.take(n) =~= w.content() + word.chars.take(n - 1) + seq![
            word.chars[n - 1],
        ]);
    } else {
        assert(w.content() + word.chars.take(0) =~= w.content());
    }
}

proof fn lemma_plus_word(w: Wrapping, word: WordView, width: int)
    requires
        word.chars.len() > 0,
    ensures
        w.plus_word(word, width).content() == w.content() + word.chars,
        w.fits(width) && 0 <= width ==> w.plus_word(word, width).fits(width),
        w.counted() && is_counted(word) ==> w.plus_word(word, width).counted(),
{
    if word.width > width {
        lemma_flush(w, width);
        lemma_plus_chars(w.flushed(), word, word.chars.len() as int, width);
        assert(word.chars.take(word.chars.len() as int) =~= word.chars);
    } else {
        lemma_plus(w, word.chars, word.width, width);
    }
}

proof fn lemma_words_fit(w: Wrapping, words: Seq<WordView>, width: int)
    requires
        0 <= width,
        w.fits(width),
        forall|k: int| 0 <= k < words.len() ==> (#[trigger] words[k]).chars.len() > 0,
    ensures
        w.plus_words(words, width).fits(width),
        w.plus_words(words, width).flushed().fits(width),
    decreases words.len(),
{
    if words.len() > 0 {
        lemma_words_fit(w, words.drop_last(), width);
        assert(words[words.len() - 1].chars.len() > 0);
        lemma_plus_word(w.plus_words(words.drop_last(), width), words.last(), width);
    }
    lemma_flush(w.plus_words(words, width), width);
}

proof fn lemma_words_are_counted(w: Wrapping, words: Seq<WordView>, width: int)
    requires
        w.counted(),
        forall|k: int|
            0 <= k < words.len() ==> is_counted(#[trigger] words[k]) && words[k].chars.len() > 0,
    ensures
        w.plus_words(words, width).counted(),
        w.plus_words(words, width).flushed().counted(),
    decreases words.len(),
{
    if words.len() > 0 {
        lemma_words_are_counted(w, words.drop_last(), width);
        assert(is_counted(words[words.len() - 1]));
        lemma_plus_word(w.plus_words(words.drop_last(), width), words.last(), width);
    }
    lemma_flush(w.plus_words(words, width), width);
}

proof fn lemma_words_content(w: Wrapping, words: Seq<WordView>, width: int)
    requires
        forall|k: int| 0 <= k < words.len() ==> (#[trigger] words[k]).chars.len() > 0,
    ensures
        w.plus_words(words, width).content() == w.content() + concatenation(
            words.map_values(|x: WordView| x.chars),
        ),
    decreases words.len(),
{
    let texts = words.map_values(|x: WordView| x.chars);
    if words.len() > 0 {
        lemma_words_content(w, words.drop_last(), width);
        assert(words[words.len() - 1].chars.len() > 0);
        lemma_plus_word(w.plus_words(words.drop_last(), width), words.last(), width);
        assert(texts.drop_last() =~= words.drop_last().map_values(|x: WordView| x.chars));
        assert(w.content() + concatenation(texts) =~= w.content() + concatenation(
            texts.drop_last(),
        ) + words.last().chars);
    } else {
        assert(w.content() + concatenation(texts) =~= w.content());
    }
}

proof fn lemma_chunk_text(chunks: Seq<(Seq<char>, int)>)
    ensures
        concatenation(chunks.map_values(|c: (Seq<char>, int)| c.0)) == chunk_text(chunks),
    decreases chunks.len(),
{
    let texts = chunks.map_values(|c: (Seq<char>, int)| c.0);
    if chunks.len() > 0 {
        lemma_chunk_text(chunks.drop_last());
        assert(texts.drop_last() =~= chunks.drop_last().map_values(|c: (Seq<char>, int)| c.0));
    }
}

proof fn lemma_pieces_text(s: Seq<char>, sep: char, cur: Seq<char>)
    ensures
        concatenation(pieces_from(s, sep, cur)) == cur + s,
    decreases s.len(),
{
    let all = pieces_from(s, sep, cur);
    if s.len() == 0 {
        assert(cur + s =~= cur);
        if cur.len() > 0 {
            lemma_concatenation_of_one(cur);
        } else {
            assert(concatenation(all) =~= cur);
        }
    } else if s[0] == sep {
        let rest = pieces_from(s.skip(1), sep, seq![]);
        lemma_pieces_text(s.skip(1), sep, seq![]);
        lemma_concatenation_of_first(cur.push(s[0]), rest);
        assert(cur + s =~= cur.push(s[0]) + (Seq::<char>::empty() + s.skip(1)));
    } else {
        lemma_pieces_text(s.skip(1), sep, cur.push(s[0]));
        assert(cur + s =~= cur.push(s[0]) + s.skip(1));
    }
}

proof fn lemma_concatenation_of_one(only: Seq<char>)
    ensures
        concatenation(seq![only]) == only,
{
    let one = seq![only];
    assert(one.drop_last() =~= seq![]);
    assert(concatenation(one.drop_last()) =~= seq![]);
    assert(concatenation(one) =~= only);
}

proof fn lemma_concatenation_of_first(first: Seq<char>, rest: Seq<Seq<char>>)
    ensures
        concatenation(seq![first] + rest) == first + concatenation(rest),
    decreases rest.len(),
{
    let all = seq![first] + rest;
    if rest.len() == 0 {
        assert(all =~= seq![first]);
        lemma_concatenation_of_one(first);
        assert(first + concatenation(rest) =~= first);
    } else {
        assert(all.drop_last() =~= seq![first] + rest.drop_last());
        lemma_concatenation_of_first(first, rest.drop_last());
        assert(concatenation(all) =~= first + concatenation(rest));
    }
}

proof fn lemma_pieces_are_printable(s: Seq<char>, sep: char, cur: Seq<char>)
    requires
        is_printable_ascii(s),
        is_printable_ascii(cur),
    ensures
        forall|k: int|
            0 <= k < pieces_from(s, sep, cur).len() ==> is_printable_ascii(
                #[trigger] pieces_from(s, sep, cur)[k],
            ),
    decreases s.len(),
{
    let all = pieces_from(s, sep, cur);
    if s.len() > 0 {
        assert(is_printable_ascii(s.skip(1)));
        assert(is_printable_ascii(cur.push(s[0])));
        if s[0] == sep {
            lemma_pieces_are_printable(s.skip(1), sep, seq![]);
            let rest = pieces_from(s.skip(1), sep, seq![]);
            assert forall|k: int| 0 <= k < all.len() implies is_printable_ascii(
                #[trigger] all[k],
            ) by {
                if k > 0 {
                    assert(all[k] == rest[k - 1]);
                }
            }
        } else {
            lemma_pieces_are_printable(s.skip(1), sep, cur.push(s[0]));
            assert(all == pieces_from(s.skip(1), sep, cur.push(s[0])));
        }
    } else if cur.len() > 0 {
        assert(all[0] == cur);
    }
}

/// Wrapping loses nothing: the chunks of a line, one after the other, are the line.
pub proof fn law_wrapping_keeps_the_line(line: Seq<char>, width: int)
    ensures
        concatenation(wrapped(line, width)) == line,
{
    if line.len() == 0 {
        lemma_concatenation_of_one(Seq::<char>::empty());
        assert(line =~= seq![]);
    } else {
        let words = measured_words(line);
        lemma_pieces_are_not_empty(line, ' ', seq![]);
        assert forall|k: int| 0 <= k < words.len() implies (#[trigger] words[k]).chars.len() > 0 by {
            assert(words[k].chars == pieces(line)[k]);
        }
        let w = Wrapping::start().plus_words(words, width);
        lemma_words_content(Wrapping::start(), words, width);
        lemma_flush(w, width);
        lemma_chunk_text(w.flushed().chunks);
        lemma_pieces_text(line, ' ', seq![]);
        assert(words.map_values(|x: WordView| x.chars) =~= pieces(line));
        assert(Wrapping::start().content() =~= seq![]);
        assert(w.flushed().content() =~= chunk_text(w.flushed().chunks));
        assert(Seq::<char>::empty() + line =~= line);
        assert(Seq::<char>::empty() + concatenation(pieces(line)) =~= line);
    }
}

/// Wrapping keeps to the width: the parts of a chunk take at most `width` columns together,
/// unless the chunk is a single character.
pub proof fn law_chunks_fit(words: Seq<WordView>, width: int)
    requires
        0 <= width,
        forall|k: int| 0 <= k < words.len() ==> (#[trigger] words[k]).chars.len() > 0,
    ensures
        Wrapping::start().plus_words(words, width).flushed().fits(width),
{
    lemma_words_fit(Wrapping::start(), words, width);
}

// ---------------------------------------------------------------------------
// Framing
// ---------------------------------------------------------------------------

/// `s`, `n` times.
pub open spec fn repeated(s: Seq<char>, n: int) -> Seq<char>
    decreases n,
{
    if n <= 0 {
        seq![]
    } else {
        repeated(s, n - 1) + s
    }
}

/// `s`, `n` times, as `str::repeat` gives it.
pub fn repeat_text(s: &str, n: usize) -> (r: String)
    ensures
        r@ == repeated(s@, n as int),
{
    let mut r = String::new();
    let mut i: usize = 0;
    while i < n
        invariant
            i <= n,
            r@ == repeated(s@, i as int),
        decreases n - i,
    {
        r.append(s);
        i += 1;
    }
    r
}

/// The columns of the frame: those of the terminal, but no fewer than twenty and no more than
/// a hundred.
pub open spec fn frame_width(term_width: int) -> int {
    if term_width < 20 {
        20
    } else if term_width > 100 {
        100
    } else {
        term_width
    }
}

/// The title as it stands in the frame.
pub open spec fn title_label(title: Seq<char>) -> Seq<char> {
    " "@ + title + " "@
}

/// The upper edge of a frame; `label_width` is the columns of the title as it stands there.
pub open spec fn top_edge(title: Option<Seq<char>>, label_width: int, box_width: int) -> Seq<
    SpanView,
> {
    match title {
        Some(t) => {
            let rest = box_width - 3 - label_width;
            seq![
                ("┌─"@, Tone::Cyan),
                (title_label(t), Tone::CyanBold),
                (repeated("─"@, rest), Tone::Cyan),
                ("┐"@, Tone::Cyan),
                ("\n"@, Tone::Plain),
            ]
        },
        None => seq![
            ("┌"@, Tone::Cyan),
            (repeated("─"@, box_width - 2), Tone::Cyan),
            ("┐"@, Tone::Cyan),
            ("\n"@, Tone::Plain),
        ],
    }
}

/// The lower edge of a frame.
pub open spec fn bottom_edge(box_width: int) -> Seq<SpanView> {
    seq![
        ("└"@, Tone::Cyan),
        (repeated("─"@, box_width - 2), Tone::Cyan),
        ("┘"@, Tone::Cyan),
        ("\n"@, Tone::Plain),
    ]
}

/// A row of a frame: the chunk, filled up with blanks to the width of the content.
pub open spec fn frame_row(chunk: Seq<char>, chunk_width: int, content_width: int) -> Seq<
    SpanView,
> {
    seq![
        ("│"@, Tone::Cyan),
        (" "@ + chunk + repeated(" "@, content_width - chunk_width) + " "@, Tone::Plain),
        ("│"@, Tone::Cyan),
        ("\n"@, Tone::Plain),
    ]
}

/// The rows of the first `n` chunks.
pub open spec fn chunk_rows(chunks: Seq<Seq<char>>, content_width: int, n: int) -> Seq<SpanView>
    decreases n,
{
    if n <= 0 {
        seq![]
    } else {
        chunk_rows(chunks, content_width, n - 1) + frame_row(
            chunks[n - 1],
            text_width(chunks[n - 1]) as int,
            content_width,
        )
    }
}

/// The rows of the first `n` lines.
pub open spec fn line_rows(all: Seq<Seq<char>>, content_width: int, n: int) -> Seq<SpanView>
    decreases n,
{
    if n <= 0 {
        seq![]
    } else {
        let chunks = wrapped(all[n - 1], content_width);
        line_rows(all, content_width, n - 1) + chunk_rows(
            chunks,
            content_width,
            chunks.len() as int,
        )
    }
}

/// A text in a frame.
pub open spec fn framed(text: Seq<char>, title: Option<Seq<char>>, term_width: int) -> Seq<
    SpanView,
> {
    let box_width = frame_width(term_width);
    let label_width = match title {
        Some(t) => text_width(title_label(t)) as int,
        None => 0,
    };
    seq![("\n"@, Tone::Plain)] + top_edge(title, label_width, box_width) + line_rows(
        lines(text),
        box_width - 4,
        lines(text).len() as int,
    ) + bottom_edge(box_width)
}

/// Appends the upper edge of a frame.
pub fn put_top_edge(out: &mut Vec<Span>, title: Option<&str>, label_width: usize, box_width: usize)
    requires
        3 <= box_width,
    ensures
        span_views(final(out)@) == span_views(old(out)@) + top_edge(
            opt_str_view(title),
            label_width as int,
            box_width as int,
        ),
{
    let ghost start = span_views(out@);
    match title {
        Some(t) => {
            let rest: usize = if label_width < box_width - 3 {
                box_width - 3 - label_width
            } else {
                0
            };
            assert(repeated("─"@, rest as int) == repeated("─"@, box_width - 3 - label_width));
            put(out, "┌─".to_owned(), Tone::Cyan);
            put(out, " ".to_owned().concat(t).concat(" "), Tone::CyanBold);
            put(out, repeat_text("─", rest), Tone::Cyan);
            put(out, "┐".to_owned(), Tone::Cyan);
            put_plain(out, "\n");
        },
        None => {
            put(out, "┌".to_owned(), Tone::Cyan);
            put(out, repeat_text("─", box_width - 2), Tone::Cyan);
            put(out, "┐".to_owned(), Tone::Cyan);
            put_plain(out, "\n");
        },
    }
    assert(span_views(out@) =~= start + top_edge(
        opt_str_view(title),
        label_width as int,
        box_width as int,
    ));
}

/// Appends a row of a frame; `chunk_width` is the columns of the chunk.
pub fn put_row(out: &mut Vec<Span>, chunk: &str, chunk_width: usize, content_width: usize)
    ensures
        span_views(final(out)@) == span_views(old(out)@) + frame_row(
            chunk@,
            chunk_width as int,
            content_width as int,
        ),
{
    let ghost start = span_views(out@);
    let pad: usize = if chunk_width < content_width {
        content_width - chunk_width
    } else {
        0
    };
    assert(repeated(" "@, pad as int) == repeated(" "@, content_width - chunk_width));
    put(out, "│".to_owned(), Tone::Cyan);
    let mut text = " ".to_owned();
    text.append(chunk);
    text.append(repeat_text(" ", pad).as_str());
    text.append(" ");
    put(out, text, Tone::Plain);
    put(out, "│".to_owned(), Tone::Cyan);
    put_plain(out, "\n");
    assert(span_views(out@) =~= start + frame_row(
        chunk@,
        chunk_width as int,
        content_width as int,
    ));
}

/// Appends the rows of one line.
fn put_line(out: &mut Vec<Span>, line: &str, content_width: usize)
    ensures
        ({
            let chunks = wrapped(line@, content_width as int);
            span_views(final(out)@) == span_views(old(out)@) + chunk_rows(
                chunks,
                content_width as int,
                chunks.len() as int,
            )
        }),
{
    let chunks = wrap_line(line, content_width);
    let ghost all = wrapped(line@, content_width as int);
    let ghost start = span_views(out@);
    let mut i: usize = 0;
    assert(chunks@.len() == views(chunks@).len());
    assert(start + chunk_rows(all, content_width as int, 0) =~= start);
    while i < chunks.len()
        invariant
            i <= chunks@.len(),
            views(chunks@) == all,
            span_views(out@) == start + chunk_rows(all, content_width as int, i as int),
        decreases chunks@.len() - i,
    {
        assert(all[i as int] == chunks@[i as int]@);
        let width = measure(chunks[i].as_str());
        put_row(out, chunks[i].as_str(), width, content_width);
        i += 1;
        assert(span_views(out@) =~= start + chunk_rows(all, content_width as int, i as int));
    }
}

/// `text` inside a Unicode box-drawing border.
///
/// The border adapts to the given terminal width (capped at 100 columns). An optional `title`
/// is embedded in the top border line.
pub fn bordered(text: &str, title: Option<&str>, term_width: usize) -> (r: Vec<Span>)
    ensures
        span_views(r@) == framed(text@, opt_str_view(title), term_width as int),
{
    let box_width: usize = if term_width < 20 {
        20
    } else if term_width > 100 {
        100
    } else {
        term_width
    };
    let content_width: usize = box_width - 4;
    let mut out: Vec<Span> = Vec::new();
    put_plain(&mut out, "\n");
    let label_width: usize = match title {
        Some(t) => measure(" ".to_owned().concat(t).concat(" ").as_str()),
        None => 0,
    };
    put_top_edge(&mut out, title, label_width, box_width);
    let all = lines_of(text);
    let ghost start = span_views(out@);
    let mut i: usize = 0;
    assert(all@.len() == views(all@).len());
    assert(start + line_rows(lines(text@), content_width as int, 0) =~= start);
    while i < all.len()
        invariant
            i <= all@.len(),
            views(all@) == lines(text@),
            span_views(out@) == start + line_rows(lines(text@), content_width as int, i as int),
        decreases all@.len() - i,
    {
        assert(lines(text@)[i as int] == all@[i as int]@);
        put_line(&mut out, all[i].as_str(), content_width);
        i += 1;
        assert(span_views(out@) =~= start + line_rows(
            lines(text@),
            content_width as int,
            i as int,
        ));
    }
    let ghost rows = span_views(out@);
    put(&mut out, "└".to_owned(), Tone::Cyan);
    put(&mut out, repeat_text("─", box_width - 2), Tone::Cyan);
    put(&mut out, "┘".to_owned(), Tone::Cyan);
    put_plain(&mut out, "\n");
    assert(span_views(out@) =~= rows + bottom_edge(box_width as int));
    assert(span_views(out@) =~= framed(text@, opt_str_view(title), term_width as int));
    out
}

} // verus!
