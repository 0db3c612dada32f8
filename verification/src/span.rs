//! Text in several tones, ready to be shown.

use vstd::prelude::*;

verus! {

/// How a piece of text is shown.
#[derive(Debug, Clone, Copy, PartialEq, Eq, Structural)]
pub enum Tone {
    Plain,
    Bold,
    Dim,
    Cyan,
    CyanBold,
    Green,
    GreenBold,
    Yellow,
    YellowBold,
    Red,
    RedBold,
    Magenta,
}

/// A piece of text in one tone.
#[derive(Debug)]
pub struct Span {
    pub text: String,
    pub tone: Tone,
}

/// A piece of text in one tone, as mathematical values.
pub type SpanView = (Seq<char>, Tone);

/// The spans as mathematical values.
pub open spec fn span_views(v: Seq<Span>) -> Seq<SpanView> {
    v.map_values(|s: Span| (s.text@, s.tone))
}

/// The text of the spans without their tones.
pub open spec fn flat(v: Seq<SpanView>) -> Seq<char>
    decreases v.len(),
{
    if v.len() == 0 {
        seq![]
    } else {
        flat(v.drop_last()) + v.last().0
    }
}

/// Appends a piece of text.
pub fn put(out: &mut Vec<Span>, text: String, tone: Tone)
    ensures
        span_views(final(out)@) == span_views(old(out)@).push((text@, tone)),
{
    out.push(Span { text, tone });
    assert(span_views(out@) =~= span_views(old(out)@).push((text@, tone)));
}

/// Appends a piece of text in the plain tone.
pub fn put_plain(out: &mut Vec<Span>, text: &str)
    ensures
        span_views(final(out)@) == span_views(old(out)@).push((text@, Tone::Plain)),
{
    put(out, text.to_owned(), Tone::Plain);
}

/// The text of the spans without their tones.
pub fn plain_text(spans: &Vec<Span>) -> (r: String)
    ensures
        r@ == flat(span_views(spans@)),
{
    let mut r = String::new();
    let mut i: usize = 0;
    let ghost all = span_views(spans@);
    assert(all.take(0) =~= seq![]);
    while i < spans.len()
        invariant
            i <= spans@.len(),
            all == span_views(spans@),
            r@ == flat(all.take(i as int)),
        decreases spans@.len() - i,
    {
        assert(all.take(i + 1).drop_last() =~= all.take(i as int));
        assert(all[i as int].0 == spans@[i as int].text@);
        r.append(spans[i].text.as_str());
        i += 1;
    }
    assert(all.take(i as int) =~= all);
    r
}

/// The text of two lists of spans, one after the other, is the text of the first followed by
/// that of the second.
pub proof fn law_flat_of_concatenation(a: Seq<SpanView>, b: Seq<SpanView>)
    ensures
        flat(a + b) == flat(a) + flat(b),
    decreases b.len(),
{
    if b.len() == 0 {
        assert(a + b =~= a);
        assert(flat(a) + flat(b) =~= flat(a));
    } else {
        assert((a + b).drop_last() =~= a + b.drop_last());
        law_flat_of_concatenation(a, b.drop_last());
        assert(flat(a) + (flat(b.drop_last()) + b.last().0) =~= (flat(a) + flat(b.drop_last()))
            + b.last().0);
    }
}

} // verus!
