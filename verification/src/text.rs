//! Strings as sequences of characters: trimming, searching, splitting and formatting.
//!
//! A string is modelled by its view, the sequence of its characters.  Every
//! executable function here is stated over that view.

use vstd::prelude::*;

verus! {

/// `String::push` appends one character at the end of the string.
pub assume_specification[ String::push ](s: &mut String, c: char)
    ensures
        final(s)@ == old(s)@.push(c),
;

/// The characters of `s`, in order.
pub fn chars_of(s: &str) -> (r: Vec<char>)
    ensures
        r@ == s@,
{
    let mut r: Vec<char> = Vec::new();
    for c in it: s.chars()
        invariant
            r@ == it.seq().take(it.index() as int),
            it.seq() == s@,
    {
        r.push(c);
    }
    r
}

/// The string made of the characters `v[from..to]`.
pub fn string_of(v: &[char], from: usize, to: usize) -> (r: String)
    requires
        from <= to <= v@.len(),
    ensures
        r@ == v@.subrange(from as int, to as int),
{
    let mut r = String::new();
    let mut i: usize = from;
    while i < to
        invariant
            from <= i <= to <= v@.len(),
            r@ == v@.subrange(from as int, i as int),
        decreases to - i,
    {
        r.push(v[i]);
        i += 1;
    }
    r
}

/// Whether two strings hold the same characters.
pub fn same_text(a: &str, b: &str) -> (r: bool)
    ensures
        r == (a@ == b@),
{
    let x = a.to_owned();
    let y = b.to_owned();
    x == y
}

/// The views of a list of strings.
pub open spec fn views(v: Seq<String>) -> Seq<Seq<char>> {
    v.map_values(|s: String| s@)
}

/// The view of an optional string.
pub open spec fn opt_view(o: Option<String>) -> Option<Seq<char>> {
    match o {
        Some(s) => Some(s@),
        None => None,
    }
}

/// The view of an optional string slice.
pub open spec fn opt_str_view(o: Option<&str>) -> Option<Seq<char>> {
    match o {
        Some(s) => Some(s@),
        None => None,
    }
}

/// A copy of an optional string.
pub fn clone_opt(o: &Option<String>) -> (r: Option<String>)
    ensures
        r == *o,
{
    match o {
        Some(s) => Some(s.clone()),
        None => None,
    }
}

/// A copy of a list of strings.
pub fn clone_strings(v: &Vec<String>) -> (r: Vec<String>)
    ensures
        r@ == v@,
{
    let mut r: Vec<String> = Vec::new();
    let mut i: usize = 0;
    while i < v.len()
        invariant
            i <= v@.len(),
            r@ == v@.take(i as int),
        decreases v@.len() - i,
    {
        r.push(v[i].clone());
        i += 1;
    }
    r
}

/// The text that `String::from_utf8_lossy` reads from bytes.
pub uninterp spec fn utf8_lossy(bytes: Seq<u8>) -> Seq<char>;

/// `String::from_utf8_lossy` decodes bytes as UTF-8 and replaces what is not valid; the result
/// depends on the bytes alone.
#[verifier::external_body]
pub(crate) fn decode_lossy(bytes: &[u8]) -> (r: String)
    ensures
        r@ == utf8_lossy(bytes@),
{
    String::from_utf8_lossy(bytes).into_owned()
}

// ---------------------------------------------------------------------------
// White space and trimming
// ---------------------------------------------------------------------------

/// The characters with the Unicode property `White_Space`.
pub open spec fn is_white_space(c: char) -> bool {
    ||| '\u{9}' <= c <= '\u{d}'
    ||| c == ' '
    ||| c == '\u{85}'
    ||| c == '\u{a0}'
    ||| c == '\u{1680}'
    ||| '\u{2000}' <= c <= '\u{200a}'
    ||| c == '\u{2028}'
    ||| c == '\u{2029}'
    ||| c == '\u{202f}'
    ||| c == '\u{205f}'
    ||| c == '\u{3000}'
}

/// Whether `c` is white space.
pub fn white_space(c: char) -> (r: bool)
    ensures
        r == is_white_space(c),
{
    ('\u{9}' <= c && c <= '\u{d}') || c == ' ' || c == '\u{85}' || c == '\u{a0}' || c
        == '\u{1680}' || ('\u{2000}' <= c && c <= '\u{200a}') || c == '\u{2028}' || c == '\u{2029}'
        || c == '\u{202f}' || c == '\u{205f}' || c == '\u{3000}'
}

/// `s` without its leading white space.
pub open spec fn trim_start(s: Seq<char>) -> Seq<char>
    decreases s.len(),
{
    if s.len() > 0 && is_white_space(s[0]) {
        trim_start(s.drop_first())
    } else {
        s
    }
}

/// `s` without its trailing white space.
pub open spec fn trim_end(s: Seq<char>) -> Seq<char>
    decreases s.len(),
{
    if s.len() > 0 && is_white_space(s.last()) {
        trim_end(s.drop_last())
    } else {
        s
    }
}

/// `s` without its leading and trailing white space.
pub open spec fn trim(s: Seq<char>) -> Seq<char> {
    trim_end(trim_start(s))
}

/// Whether `s` holds nothing but white space.
pub open spec fn is_blank(s: Seq<char>) -> bool {
    forall|i: int| 0 <= i < s.len() ==> is_white_space(#[trigger] s[i])
}

/// The first index at or after `from` that holds no white space, or `v.len()`.
fn skip_white_space(v: &[char], from: usize) -> (r: usize)
    requires
        from <= v@.len(),
    ensures
        from <= r <= v@.len(),
        trim_start(v@.skip(from as int)) == v@.skip(r as int),
        r < v@.len() ==> !is_white_space(v@[r as int]),
        is_blank(v@.subrange(from as int, r as int)),
{
    let mut i: usize = from;
    while i < v.len() && white_space(v[i])
        invariant
            from <= i <= v@.len(),
            trim_start(v@.skip(from as int)) == trim_start(v@.skip(i as int)),
            is_blank(v@.subrange(from as int, i as int)),
        decreases v@.len() - i,
    {
        assert(v@.skip(i as int).drop_first() == v@.skip(i + 1));
        assert(v@.subrange(from as int, i + 1) == v@.subrange(from as int, i as int).push(
            v@[i as int],
        ));
        i += 1;
    }
    i
}

/// The end of `v[from..]` without its trailing white space.
fn skip_white_space_back(v: &[char], from: usize) -> (r: usize)
    requires
        from <= v@.len(),
    ensures
        from <= r <= v@.len(),
        trim_end(v@.skip(from as int)) == v@.subrange(from as int, r as int),
{
    let mut i: usize = v.len();
    assert(v@.subrange(from as int, i as int) == v@.skip(from as int));
    while i > from && white_space(v[i - 1])
        invariant
            from <= i <= v@.len(),
            trim_end(v@.skip(from as int)) == trim_end(v@.subrange(from as int, i as int)),
        decreases i,
    {
        assert(v@.subrange(from as int, i as int).drop_last() == v@.subrange(
            from as int,
            i - 1,
        ));
        i -= 1;
    }
    i
}

/// Removes leading white space, as `str::trim_start` does.
pub fn trimmed_start(s: &str) -> (r: String)
    ensures
        r@ == trim_start(s@),
{
    let v = chars_of(s);
    assert(v@.skip(0) == v@);
    let a = skip_white_space(v.as_slice(), 0);
    string_of(v.as_slice(), a, v.len())
}

/// Removes trailing white space, as `str::trim_end` does.
pub fn trimmed_end(s: &str) -> (r: String)
    ensures
        r@ == trim_end(s@),
{
    let v = chars_of(s);
    assert(v@.skip(0) == v@);
    let b = skip_white_space_back(v.as_slice(), 0);
    string_of(v.as_slice(), 0, b)
}

/// Removes leading and trailing white space, as `str::trim` does.
pub fn trimmed(s: &str) -> (r: String)
    ensures
        r@ == trim(s@),
{
    let v = chars_of(s);
    assert(v@.skip(0) == v@);
    let a = skip_white_space(v.as_slice(), 0);
    let b = skip_white_space_back(v.as_slice(), a);
    string_of(v.as_slice(), a, b)
}

/// Trimming leaves nothing exactly of a blank text.
pub proof fn lemma_trim_blank(s: Seq<char>)
    ensures
        trim(s).len() == 0 <==> is_blank(s),
    decreases s.len(),
{
    if s.len() > 0 && is_white_space(s[0]) {
        lemma_trim_blank(s.drop_first());
        assert(s == seq![s[0]] + s.drop_first());
        if is_blank(s.drop_first()) {
            assert forall|i: int| 0 <= i < s.len() implies is_white_space(#[trigger] s[i]) by {
                if i > 0 {
                    assert(s[i] == s.drop_first()[i - 1]);
                }
            }
        }
        if is_blank(s) {
            assert forall|i: int| 0 <= i < s.drop_first().len() implies is_white_space(
                #[trigger] s.drop_first()[i],
            ) by {
                assert(s.drop_first()[i] == s[i + 1]);
            }
        }
    } else if s.len() > 0 {
        lemma_trim_end_keeps_first(s);
        assert(!is_white_space(s[0]));
    }
}

proof fn lemma_trim_end_keeps_first(s: Seq<char>)
    requires
        s.len() > 0,
        !is_white_space(s[0]),
    ensures
        trim_end(s).len() > 0,
        trim_end(s)[0] == s[0],
    decreases s.len(),
{
    if is_white_space(s.last()) {
        assert(s.len() > 1);
        assert(s.drop_last()[0] == s[0]);
        lemma_trim_end_keeps_first(s.drop_last());
    }
}

/// Whether `s` holds nothing but white space.
pub fn blank(s: &str) -> (r: bool)
    ensures
        r == is_blank(s@),
        r == (trim(s@).len() == 0),
{
    let v = chars_of(s);
    assert(v@.skip(0) == v@);
    let a = skip_white_space(v.as_slice(), 0);
    proof {
        lemma_trim_blank(s@);
        assert(v@.subrange(0, v@.len() as int) == v@);
    }
    a == v.len()
}

/// `s` without the characters `c` at its end.
pub open spec fn without_trailing(s: Seq<char>, c: char) -> Seq<char>
    decreases s.len(),
{
    if s.len() > 0 && s.last() == c {
        without_trailing(s.drop_last(), c)
    } else {
        s
    }
}

/// `s` without the characters `c` at its beginning.
pub open spec fn without_leading(s: Seq<char>, c: char) -> Seq<char>
    decreases s.len(),
{
    if s.len() > 0 && s[0] == c {
        without_leading(s.skip(1), c)
    } else {
        s
    }
}

/// Removes the characters `c` at the end, as `str::trim_end_matches` does.
pub fn strip_trailing(s: &str, c: char) -> (r: String)
    ensures
        r@ == without_trailing(s@, c),
{
    let v = chars_of(s);
    let mut n: usize = v.len();
    assert(v@.take(n as int) =~= v@);
    while n > 0 && v[n - 1] == c
        invariant
            n <= v@.len(),
            v@ == s@,
            without_trailing(s@, c) == without_trailing(v@.take(n as int), c),
        decreases n,
    {
        assert(v@.take(n as int).drop_last() =~= v@.take(n - 1));
        n -= 1;
    }
    string_of(v.as_slice(), 0, n)
}

/// Removes the characters `c` at the beginning, as `str::trim_start_matches` does.
pub fn strip_leading(s: &str, c: char) -> (r: String)
    ensures
        r@ == without_leading(s@, c),
{
    let v = chars_of(s);
    let mut i: usize = 0;
    assert(v@.skip(0) =~= v@);
    while i < v.len() && v[i] == c
        invariant
            i <= v@.len(),
            v@ == s@,
            without_leading(s@, c) == without_leading(v@.skip(i as int), c),
        decreases v@.len() - i,
    {
        assert(v@.skip(i as int).skip(1) =~= v@.skip(i + 1));
        i += 1;
    }
    string_of(v.as_slice(), i, v.len())
}

/// The first `n` characters of `s`, or all of them.
pub open spec fn front(s: Seq<char>, n: int) -> Seq<char> {
    if s.len() <= n {
        s
    } else {
        s.take(n)
    }
}

/// The first `n` characters of `s`, or all of them.
pub fn front_of(s: &str, n: usize) -> (r: String)
    ensures
        r@ == front(s@, n as int),
{
    let v = chars_of(s);
    if v.len() <= n {
        s.to_owned()
    } else {
        string_of(v.as_slice(), 0, n)
    }
}

// ---------------------------------------------------------------------------
// Searching
// ---------------------------------------------------------------------------

/// Whether `pat` stands in `s` at index `i`.
pub open spec fn matches_at(s: Seq<char>, pat: Seq<char>, i: int) -> bool {
    0 <= i && i + pat.len() <= s.len() && s.subrange(i, i + pat.len()) == pat
}

/// Whether `pat` stands anywhere in `s`.
pub open spec fn contains(s: Seq<char>, pat: Seq<char>) -> bool {
    exists|i: int| matches_at(s, pat, i)
}

/// Whether `s` begins with `pat`.
pub open spec fn starts_with(s: Seq<char>, pat: Seq<char>) -> bool {
    matches_at(s, pat, 0)
}

/// Whether `s` ends with `pat`.
pub open spec fn ends_with(s: Seq<char>, pat: Seq<char>) -> bool {
    matches_at(s, pat, s.len() - pat.len())
}

/// Whether `pat` stands in `v` at index `i`.
pub fn stands_at(v: &[char], pat: &[char], i: usize) -> (r: bool)
    ensures
        r == matches_at(v@, pat@, i as int),
{
    if i > v.len() || pat.len() > v.len() - i {
        return false;
    }
    let n: usize = v.len();
    let mut j: usize = 0;
    while j < pat.len()
        invariant
            n == v@.len(),
            i + pat@.len() <= n,
            j <= pat@.len(),
            forall|k: int| 0 <= k < j ==> v@[i + k] == pat@[k],
        decreases pat@.len() - j,
    {
        if v[i + j] != pat[j] {
            assert(v@.subrange(i as int, i + pat@.len())[j as int] != pat@[j as int]);
            return false;
        }
        j += 1;
    }
    assert(v@.subrange(i as int, i + pat@.len()) == pat@);
    true
}

/// The first index at or after `from` at which `pat` stands in `v`.
pub fn find_from(v: &[char], pat: &[char], from: usize) -> (r: Option<usize>)
    requires
        from <= v@.len(),
    ensures
        match r {
            Some(i) => {
                &&& from <= i <= v@.len() - pat@.len()
                &&& matches_at(v@, pat@, i as int)
                &&& forall|k: int| from <= k < i ==> !matches_at(v@, pat@, k)
            },
            None => forall|k: int| from <= k ==> !matches_at(v@, pat@, k),
        },
{
    let mut i: usize = from;
    while i < v.len()
        invariant
            from <= i <= v@.len(),
            forall|k: int| from <= k < i ==> !matches_at(v@, pat@, k),
        decreases v@.len() - i,
    {
        if stands_at(v, pat, i) {
            return Some(i);
        }
        i += 1;
    }
    if stands_at(v, pat, i) {
        return Some(i);
    }
    None
}

/// The first index at or after `from` at which `pat` stands in `s`.
pub open spec fn first_at(s: Seq<char>, pat: Seq<char>, from: int) -> Option<int>
    decreases s.len() - from + 1,
{
    if from > s.len() {
        None
    } else if matches_at(s, pat, from) {
        Some(from)
    } else {
        first_at(s, pat, from + 1)
    }
}

/// The last index at or before `upto` at which `pat` stands in `s`.
pub open spec fn last_at(s: Seq<char>, pat: Seq<char>, upto: int) -> Option<int>
    decreases upto + 1,
{
    if upto < 0 {
        None
    } else if matches_at(s, pat, upto) {
        Some(upto)
    } else {
        last_at(s, pat, upto - 1)
    }
}

/// `first_at` gives a place, and the first.
pub proof fn lemma_first_at(s: Seq<char>, pat: Seq<char>, from: int)
    requires
        0 <= from,
    ensures
        match first_at(s, pat, from) {
            Some(i) => {
                &&& from <= i
                &&& matches_at(s, pat, i)
                &&& forall|k: int| from <= k < i ==> !matches_at(s, pat, k)
            },
            None => forall|k: int| from <= k ==> !matches_at(s, pat, k),
        },
    decreases s.len() - from + 1,
{
    if from <= s.len() && !matches_at(s, pat, from) {
        lemma_first_at(s, pat, from + 1);
    }
}

/// The first index at which `pat` stands in `v`, as `str::find` gives it in characters.
pub fn find_first(v: &[char], pat: &[char]) -> (r: Option<usize>)
    ensures
        match r {
            Some(i) => first_at(v@, pat@, 0) == Some(i as int) && i + pat@.len() <= v@.len()
                && matches_at(v@, pat@, i as int),
            None => first_at(v@, pat@, 0) is None,
        },
{
    proof {
        lemma_first_at(v@, pat@, 0);
    }
    find_from(v, pat, 0)
}

/// The last index at which `pat` stands in `v`, as `str::rfind` gives it in characters.
pub fn find_last(v: &[char], pat: &[char]) -> (r: Option<usize>)
    ensures
        match r {
            Some(i) => last_at(v@, pat@, v@.len() as int) == Some(i as int) && i + pat@.len()
                <= v@.len() && matches_at(v@, pat@, i as int),
            None => last_at(v@, pat@, v@.len() as int) is None,
        },
{
    let mut i: usize = v.len();
    while i > 0
        invariant
            i <= v@.len(),
            last_at(v@, pat@, v@.len() as int) == last_at(v@, pat@, i as int),
        decreases i,
    {
        if stands_at(v, pat, i) {
            return Some(i);
        }
        i -= 1;
    }
    if stands_at(v, pat, 0) {
        return Some(0);
    }
    assert(last_at(v@, pat@, -1) is None);
    None
}

/// Whether `pat` stands anywhere in `s`, as `str::contains` tells.
pub fn has(s: &str, pat: &str) -> (r: bool)
    ensures
        r == contains(s@, pat@),
{
    let v = chars_of(s);
    let p = chars_of(pat);
    match find_from(v.as_slice(), p.as_slice(), 0) {
        Some(i) => {
            assert(matches_at(s@, pat@, i as int));
            true
        },
        None => false,
    }
}

/// Whether `s` begins with `pat`, as `str::starts_with` tells.
pub fn begins(s: &str, pat: &str) -> (r: bool)
    ensures
        r == starts_with(s@, pat@),
{
    let v = chars_of(s);
    let p = chars_of(pat);
    stands_at(v.as_slice(), p.as_slice(), 0)
}

/// Whether `s` ends with `pat`, as `str::ends_with` tells.
pub fn ends(s: &str, pat: &str) -> (r: bool)
    ensures
        r == ends_with(s@, pat@),
{
    let v = chars_of(s);
    let p = chars_of(pat);
    if p.len() > v.len() {
        return false;
    }
    stands_at(v.as_slice(), p.as_slice(), v.len() - p.len())
}

/// What follows `pat` at the beginning of `s`, as `str::strip_prefix` gives it.
pub open spec fn strip_prefix(s: Seq<char>, pat: Seq<char>) -> Option<Seq<char>> {
    if starts_with(s, pat) {
        Some(s.skip(pat.len() as int))
    } else {
        None
    }
}

/// What follows `pat` at the beginning of `s`, if `s` begins with it.
pub fn after_prefix(s: &str, pat: &str) -> (r: Option<String>)
    ensures
        opt_view(r) == strip_prefix(s@, pat@),
{
    let v = chars_of(s);
    let p = chars_of(pat);
    if stands_at(v.as_slice(), p.as_slice(), 0) {
        Some(string_of(v.as_slice(), p.len(), v.len()))
    } else {
        None
    }
}

/// `s` with each occurrence of `pat`, from the left and without overlap, replaced by `with`.
pub open spec fn replace(s: Seq<char>, pat: Seq<char>, with: Seq<char>) -> Seq<char>
    decreases s.len(),
{
    if pat.len() == 0 || s.len() < pat.len() {
        s
    } else if starts_with(s, pat) {
        with + replace(s.skip(pat.len() as int), pat, with)
    } else {
        seq![s[0]] + replace(s.skip(1), pat, with)
    }
}

/// Replaces each occurrence of `pat` by `with`, as `str::replace` does.
pub fn replaced(s: &str, pat: &str, with: &str) -> (r: String)
    requires
        pat@.len() > 0,
    ensures
        r@ == replace(s@, pat@, with@),
{
    let v = chars_of(s);
    let p = chars_of(pat);
    let mut r = String::new();
    let mut i: usize = 0;
    assert(v@.skip(0) == v@);
    while i < v.len()
        invariant
            i <= v@.len(),
            p@ == pat@,
            p@.len() > 0,
            r@ + replace(v@.skip(i as int), pat@, with@) == replace(v@, pat@, with@),
        decreases v@.len() - i,
    {
        let ghost rest = v@.skip(i as int);
        let ghost whole = r@;
        if stands_at(v.as_slice(), p.as_slice(), i) {
            proof {
                assert(rest.subrange(0, 0int + pat@.len()) == v@.subrange(
                    i as int,
                    i + pat@.len(),
                ));
                assert(rest.skip(pat@.len() as int) == v@.skip(i + pat@.len()));
                assert(whole + (with@ + replace(v@.skip(i + pat@.len()), pat@, with@)) == (whole
                    + with@) + replace(v@.skip(i + pat@.len()), pat@, with@));
            }
            r.append(with);
            i += p.len();
        } else {
            proof {
                if rest.len() >= pat@.len() {
                    assert(rest.subrange(0, 0int + pat@.len()) == v@.subrange(
                        i as int,
                        i + pat@.len(),
                    ));
                    assert(rest.skip(1) == v@.skip(i + 1));
                } else {
                    assert(rest == seq![rest[0]] + rest.skip(1));
                    assert(rest.skip(1) == v@.skip(i + 1));
                }
                assert(whole + (seq![rest[0]] + replace(v@.skip(i + 1), pat@, with@))
                    == whole.push(v@[i as int]) + replace(v@.skip(i + 1), pat@, with@));
            }
            r.push(v[i]);
            i += 1;
        }
    }
    assert(v@.skip(i as int) =~= Seq::<char>::empty());
    assert(r@ + Seq::<char>::empty() == r@);
    r
}

// ---------------------------------------------------------------------------
// Splitting and joining
// ---------------------------------------------------------------------------

/// `cur` without one trailing carriage return.
pub open spec fn strip_cr(cur: Seq<char>) -> Seq<char> {
    if cur.len() > 0 && cur.last() == '\r' {
        cur.drop_last()
    } else {
        cur
    }
}

/// The lines of `cur + s`, where `cur` holds no line feed.
pub open spec fn lines_from(s: Seq<char>, cur: Seq<char>) -> Seq<Seq<char>>
    decreases s.len(),
{
    if s.len() == 0 {
        if cur.len() == 0 {
            seq![]
        } else {
            seq![cur]
        }
    } else if s[0] == '\n' {
        seq![strip_cr(cur)] + lines_from(s.skip(1), seq![])
    } else {
        lines_from(s.skip(1), cur.push(s[0]))
    }
}

/// The lines of `s` without their ends (`\n` or `\r\n`); the last end is optional.
pub open spec fn lines(s: Seq<char>) -> Seq<Seq<char>> {
    lines_from(s, seq![])
}

/// The lines of `s`, as `str::lines` gives them.
pub fn lines_of(s: &str) -> (r: Vec<String>)
    ensures
        views(r@) == lines(s@),
{
    let v = chars_of(s);
    let mut r: Vec<String> = Vec::new();
    let mut start: usize = 0;
    let mut i: usize = 0;
    assert(v@.skip(0) == v@);
    assert(v@.subrange(0, 0) =~= seq![]);
    assert(views(r@) + lines(s@) =~= lines(s@));
    while i < v.len()
        invariant
            start <= i <= v@.len(),
            v@ == s@,
            views(r@) + lines_from(v@.skip(i as int), v@.subrange(start as int, i as int)) == lines(
                s@,
            ),
        decreases v@.len() - i,
    {
        let ghost cur = v@.subrange(start as int, i as int);
        let ghost done = views(r@);
        assert(v@.skip(i as int).skip(1) == v@.skip(i + 1));
        if v[i] == '\n' {
            let end: usize = if i > start && v[i - 1] == '\r' {
                i - 1
            } else {
                i
            };
            assert(v@.subrange(start as int, end as int) == strip_cr(cur));
            let line = string_of(v.as_slice(), start, end);
            r.push(line);
            assert(views(r@) == done.push(strip_cr(cur)));
            assert(done + (seq![strip_cr(cur)] + lines_from(v@.skip(i + 1), seq![])) == done.push(
                strip_cr(cur),
            ) + lines_from(v@.skip(i + 1), seq![]));
            i += 1;
            start = i;
            assert(v@.subrange(start as int, i as int) =~= seq![]);
        } else {
            i += 1;
            assert(v@.subrange(start as int, i as int) == cur.push(v@[i - 1]));
        }
    }
    assert(v@.skip(i as int) =~= seq![]);
    if start < i {
        let line = string_of(v.as_slice(), start, i);
        let ghost done = views(r@);
        r.push(line);
        assert(views(r@) == done.push(line@));
        assert(done + seq![line@] == done.push(line@));
    } else {
        assert(views(r@) + Seq::<Seq<char>>::empty() == views(r@));
    }
    r
}

/// The pieces of `cur + s` between the occurrences of `sep`, where `cur` holds none.
pub open spec fn split_from(s: Seq<char>, sep: char, cur: Seq<char>) -> Seq<Seq<char>>
    decreases s.len(),
{
    if s.len() == 0 {
        seq![cur]
    } else if s[0] == sep {
        seq![cur] + split_from(s.skip(1), sep, seq![])
    } else {
        split_from(s.skip(1), sep, cur.push(s[0]))
    }
}

/// The pieces of `s` between the occurrences of `sep`.
pub open spec fn split(s: Seq<char>, sep: char) -> Seq<Seq<char>> {
    split_from(s, sep, seq![])
}

/// The pieces of `s` between the occurrences of `sep`, as `str::split` gives them.
pub fn split_on(s: &str, sep: char) -> (r: Vec<String>)
    ensures
        views(r@) == split(s@, sep),
        r@.len() > 0,
{
    let v = chars_of(s);
    let mut r: Vec<String> = Vec::new();
    let mut start: usize = 0;
    let mut i: usize = 0;
    assert(v@.skip(0) == v@);
    assert(v@.subrange(0, 0) =~= seq![]);
    assert(views(r@) + split(s@, sep) =~= split(s@, sep));
    while i < v.len()
        invariant
            start <= i <= v@.len(),
            v@ == s@,
            views(r@) + split_from(
                v@.skip(i as int),
                sep,
                v@.subrange(start as int, i as int),
            ) == split(s@, sep),
        decreases v@.len() - i,
    {
        let ghost cur = v@.subrange(start as int, i as int);
        let ghost done = views(r@);
        assert(v@.skip(i as int).skip(1) == v@.skip(i + 1));
        if v[i] == sep {
            let piece = string_of(v.as_slice(), start, i);
            r.push(piece);
            assert(views(r@) == done.push(cur));
            assert(done + (seq![cur] + split_from(v@.skip(i + 1), sep, seq![])) == done.push(cur)
                + split_from(v@.skip(i + 1), sep, seq![]));
            i += 1;
            start = i;
            assert(v@.subrange(start as int, i as int) =~= seq![]);
        } else {
            i += 1;
            assert(v@.subrange(start as int, i as int) == cur.push(v@[i - 1]));
        }
    }
    assert(v@.skip(i as int) =~= seq![]);
    let piece = string_of(v.as_slice(), start, i);
    let ghost done = views(r@);
    r.push(piece);
    assert(views(r@) == done.push(piece@));
    assert(done + seq![piece@] == done.push(piece@));
    r
}

/// The pieces of a text that begins with a piece and a separator.
pub proof fn lemma_split_first(a: Seq<char>, sep: char, b: Seq<char>)
    requires
        forall|i: int| 0 <= i < a.len() ==> a[i] != sep,
    ensures
        split(a + seq![sep] + b, sep) == seq![a] + split(b, sep),
        split(a, sep) == seq![a],
{
    lemma_split_from_skips(a, sep, seq![sep] + b, seq![]);
    lemma_split_from_skips(a, sep, seq![], seq![]);
    assert(a + seq![sep] + b =~= a + (seq![sep] + b));
    assert((seq![sep] + b).skip(1) =~= b);
    assert(Seq::<char>::empty() + a =~= a);
    assert(a + Seq::<char>::empty() =~= a);
}

proof fn lemma_split_from_skips(a: Seq<char>, sep: char, rest: Seq<char>, cur: Seq<char>)
    requires
        forall|i: int| 0 <= i < a.len() ==> a[i] != sep,
    ensures
        split_from(a + rest, sep, cur) == split_from(rest, sep, cur + a),
    decreases a.len(),
{
    if a.len() > 0 {
        assert((a + rest).skip(1) =~= a.skip(1) + rest);
        assert((a + rest)[0] == a[0]);
        assert forall|i: int| 0 <= i < a.skip(1).len() implies a.skip(1)[i] != sep by {
            assert(a.skip(1)[i] == a[i + 1]);
        }
        lemma_split_from_skips(a.skip(1), sep, rest, cur.push(a[0]));
        assert(cur.push(a[0]) + a.skip(1) =~= cur + a);
    } else {
        assert(a + rest =~= rest);
        assert(cur + a =~= cur);
    }
}

/// The words of `cur + s`, where `cur` holds no white space.
pub open spec fn words_from(s: Seq<char>, cur: Seq<char>) -> Seq<Seq<char>>
    decreases s.len(),
{
    if s.len() == 0 {
        if cur.len() == 0 {
            seq![]
        } else {
            seq![cur]
        }
    } else if is_white_space(s[0]) {
        if cur.len() == 0 {
            words_from(s.skip(1), seq![])
        } else {
            seq![cur] + words_from(s.skip(1), seq![])
        }
    } else {
        words_from(s.skip(1), cur.push(s[0]))
    }
}

/// The longest runs of characters other than white space in `s`.
pub open spec fn words(s: Seq<char>) -> Seq<Seq<char>> {
    words_from(s, seq![])
}

/// The words of `s`, as `str::split_whitespace` gives them.
pub fn words_of(s: &str) -> (r: Vec<String>)
    ensures
        views(r@) == words(s@),
{
    let v = chars_of(s);
    let mut r: Vec<String> = Vec::new();
    let mut start: usize = 0;
    let mut i: usize = 0;
    assert(v@.skip(0) == v@);
    assert(v@.subrange(0, 0) =~= seq![]);
    assert(views(r@) + words(s@) =~= words(s@));
    while i < v.len()
        invariant
            start <= i <= v@.len(),
            v@ == s@,
            views(r@) + words_from(v@.skip(i as int), v@.subrange(start as int, i as int)) == words(
                s@,
            ),
        decreases v@.len() - i,
    {
        let ghost cur = v@.subrange(start as int, i as int);
        let ghost done = views(r@);
        assert(v@.skip(i as int).skip(1) == v@.skip(i + 1));
        if white_space(v[i]) {
            if start < i {
                let word = string_of(v.as_slice(), start, i);
                r.push(word);
                assert(views(r@) == done.push(cur));
                assert(done + (seq![cur] + words_from(v@.skip(i + 1), seq![])) == done.push(cur)
                    + words_from(v@.skip(i + 1), seq![]));
            }
            i += 1;
            start = i;
            assert(v@.subrange(start as int, i as int) =~= seq![]);
        } else {
            i += 1;
            assert(v@.subrange(start as int, i as int) == cur.push(v@[i - 1]));
        }
    }
    assert(v@.skip(i as int) =~= seq![]);
    if start < i {
        let word = string_of(v.as_slice(), start, i);
        let ghost done = views(r@);
        r.push(word);
        assert(views(r@) == done.push(word@));
        assert(done + seq![word@] == done.push(word@));
    } else {
        assert(views(r@) + Seq::<Seq<char>>::empty() == views(r@));
    }
    r
}

/// Whether the text is among the given ones.
pub fn is_among(all: &Vec<String>, wanted: &str) -> (r: bool)
    ensures
        r == views(all@).contains(wanted@),
{
    let mut i: usize = 0;
    while i < all.len()
        invariant
            i <= all@.len(),
            forall|k: int| 0 <= k < i ==> views(all@)[k] != wanted@,
        decreases all@.len() - i,
    {
        assert(views(all@)[i as int] == all@[i as int]@);
        if same_text(all[i].as_str(), wanted) {
            return true;
        }
        i += 1;
    }
    false
}

/// The parts, one after the other, with `sep` between each two.
pub open spec fn join(parts: Seq<Seq<char>>, sep: Seq<char>) -> Seq<char>
    decreases parts.len(),
{
    if parts.len() == 0 {
        seq![]
    } else if parts.len() == 1 {
        parts[0]
    } else {
        join(parts.drop_last(), sep) + sep + parts.last()
    }
}

/// The strings, one after the other, with `sep` between each two, as `join` on a slice gives.
pub fn joined(parts: &Vec<String>, sep: &str) -> (r: String)
    ensures
        r@ == join(views(parts@), sep@),
{
    let mut r = String::new();
    let mut i: usize = 0;
    assert(views(parts@.take(0)) =~= seq![]);
    while i < parts.len()
        invariant
            i <= parts@.len(),
            r@ == join(views(parts@.take(i as int)), sep@),
        decreases parts@.len() - i,
    {
        assert(views(parts@.take(i + 1)).drop_last() == views(parts@.take(i as int)));
        assert(views(parts@.take(i + 1)).last() == parts@[i as int]@);
        if i > 0 {
            r.append(sep);
            r.append(parts[i].as_str());
        } else {
            r.append(parts[i].as_str());
            assert(Seq::<char>::empty() + parts@[0]@ == parts@[0]@);
        }
        i += 1;
    }
    assert(parts@.take(i as int) == parts@);
    r
}

// ---------------------------------------------------------------------------
// Numbers
// ---------------------------------------------------------------------------

/// The decimal digit `d`.
pub open spec fn digit(d: int) -> char {
    (48 + d) as char
}

/// `n` in decimal, without leading zeros.
pub open spec fn decimal(n: nat) -> Seq<char>
    decreases n,
{
    if n < 10 {
        seq![digit(n as int)]
    } else {
        decimal(n / 10).push(digit((n % 10) as int))
    }
}

/// `s`, filled up with zeros on the left to `width` characters.
pub open spec fn zero_padded(s: Seq<char>, width: nat) -> Seq<char> {
    if s.len() >= width {
        s
    } else {
        Seq::new((width - s.len()) as nat, |i: int| '0') + s
    }
}

/// `n` in decimal, as `to_string` writes it.
pub fn decimal_of(n: u64) -> (r: String)
    ensures
        r@ == decimal(n as nat),
    decreases n,
{
    if n < 10 {
        let mut r = String::new();
        r.push((48u8 + n as u8) as char);
        assert(r@ == seq![digit(n as int)]);
        r
    } else {
        let mut r = decimal_of(n / 10);
        r.push((48u8 + (n % 10) as u8) as char);
        r
    }
}

/// `i` in decimal, with a minus sign if it is negative.
pub open spec fn signed_decimal(i: int) -> Seq<char> {
    if i < 0 {
        "-"@ + decimal((-i) as nat)
    } else {
        decimal(i as nat)
    }
}

/// `i` in decimal, as `to_string` writes it.
pub fn signed_decimal_of(i: i32) -> (r: String)
    ensures
        r@ == signed_decimal(i as int),
{
    let wide: i64 = i as i64;
    if wide < 0 {
        "-".to_owned().concat(decimal_of((-wide) as u64).as_str())
    } else {
        decimal_of(wide as u64)
    }
}

/// `n` in decimal with at least `width` digits, as `format!("{n:0width$}")` writes it.
pub fn padded_of(n: u64, width: usize) -> (r: String)
    ensures
        r@ == zero_padded(decimal(n as nat), width as nat),
{
    let d = decimal_of(n);
    let len: usize = d.as_str().unicode_len();
    if len >= width {
        return d;
    }
    let mut r = String::new();
    let mut i: usize = 0;
    while i < width - len
        invariant
            len < width,
            i <= width - len,
            r@ == Seq::new(i as nat, |k: int| '0'),
        decreases width - len - i,
    {
        r.push('0');
        i += 1;
        assert(r@ == Seq::new(i as nat, |k: int| '0'));
    }
    r.append(d.as_str());
    r
}

/// A decimal digit.
pub open spec fn is_digit(c: char) -> bool {
    '0' <= c <= '9'
}

/// Nothing but decimal digits.
pub open spec fn all_digits(s: Seq<char>) -> bool {
    forall|i: int| 0 <= i < s.len() ==> is_digit(#[trigger] s[i])
}

/// The number that a sequence of decimal digits stands for.
pub open spec fn digits_value(s: Seq<char>) -> nat
    decreases s.len(),
{
    if s.len() == 0 {
        0
    } else {
        digits_value(s.drop_last()) * 10 + (s.last() as int - 48) as nat
    }
}

/// The number that a text stands for: decimal digits, at least one, with an optional plus sign
/// before them.
pub open spec fn number(s: Seq<char>) -> Option<nat> {
    let d = unsigned_part(s);
    if d.len() > 0 && all_digits(d) {
        Some(digits_value(d))
    } else {
        None
    }
}

/// The digits of a text that may begin with a plus sign.
pub open spec fn unsigned_part(s: Seq<char>) -> Seq<char> {
    if s.len() > 0 && s[0] == '+' {
        s.skip(1)
    } else {
        s
    }
}

/// Digits at the beginning of `s` already stand for more than `max`.
pub open spec fn exceeds(s: Seq<char>, max: int) -> bool {
    exists|n: int|
        0 <= n <= unsigned_part(s).len() && all_digits(unsigned_part(s).take(n))
            && #[trigger] digits_value(unsigned_part(s).take(n)) > max
}

/// Why a text stands for no number of a type.
#[derive(Debug, Clone, Copy, PartialEq, Eq, Structural)]
pub enum NumberFault {
    /// The text is empty.
    Empty,
    /// The text holds something else than digits.
    InvalidDigit,
    /// The number is greater than the type's greatest value.
    TooLarge,
}

impl NumberFault {
    /// The words for the fault.
    pub open spec fn text_spec(self) -> Seq<char> {
        match self {
            NumberFault::Empty => "cannot parse integer from empty string"@,
            NumberFault::InvalidDigit => "invalid digit found in string"@,
            NumberFault::TooLarge => "number too large to fit in target type"@,
        }
    }

    /// The words for the fault.
    pub fn text(&self) -> (r: &'static str)
        ensures
            r@ == self.text_spec(),
    {
        match self {
            NumberFault::Empty => "cannot parse integer from empty string",
            NumberFault::InvalidDigit => "invalid digit found in string",
            NumberFault::TooLarge => "number too large to fit in target type",
        }
    }
}

/// What `str::parse` gives for `s` and an unsigned type whose greatest value is `max`.
pub open spec fn parsed(s: Seq<char>, max: int) -> Result<nat, NumberFault> {
    match number(s) {
        Some(n) => if n <= max {
            Ok(n)
        } else {
            Err(NumberFault::TooLarge)
        },
        None => if s.len() == 0 {
            Err(NumberFault::Empty)
        } else if exceeds(s, max) {
            Err(NumberFault::TooLarge)
        } else {
            Err(NumberFault::InvalidDigit)
        },
    }
}

/// The number that `s` stands for, or why it stands for none that is no greater than `max`.
pub fn parse_or_fault(s: &str, max: u64) -> (r: Result<u64, NumberFault>)
    ensures
        match r {
            Ok(n) => parsed(s@, max as int) == Ok::<nat, NumberFault>(n as nat),
            Err(fault) => parsed(s@, max as int) == Err::<nat, NumberFault>(fault),
        },
{
    let v = chars_of(s);
    if v.len() == 0 {
        return Err(NumberFault::Empty);
    }
    let start: usize = if v[0] == '+' {
        1
    } else {
        0
    };
    let ghost d = v@.skip(start as int);
    assert(start == 0 ==> d == v@);
    assert(d == unsigned_part(s@));
    let mut value: u64 = 0;
    let mut i: usize = start;
    assert(d.take(0) =~= seq![]);
    while i < v.len()
        invariant
            start <= i <= v@.len(),
            start <= 1,
            v@ == s@,
            v@.len() > 0,
            d == v@.skip(start as int),
            d == unsigned_part(s@),
            all_digits(d.take(i - start)),
            value == digits_value(d.take(i - start)),
            value <= max,
        decreases v@.len() - i,
    {
        let c = v[i];
        assert(d[i - start] == c);
        if !('0' <= c && c <= '9') {
            assert(!all_digits(d));
            proof {
                if exceeds(s@, max as int) {
                    let n = choose|n: int|
                        0 <= n <= d.len() && all_digits(d.take(n)) && #[trigger] digits_value(
                            d.take(n),
                        ) > max;
                    if n > i - start {
                        assert(is_digit(d.take(n)[i - start]));
                    }
                    assert(d.take(i - start).take(n) =~= d.take(n));
                    lemma_digits_value_grows(d.take(i - start), n);
                }
            }
            return Err(NumberFault::InvalidDigit);
        }
        let digit: u64 = c as u64 - 48;
        proof {
            let next = d.take(i - start + 1);
            assert(next.drop_last() == d.take(i - start));
            assert(next.last() == c);
            assert(digits_value(next) == value * 10 + digit);
            assert forall|k: int| 0 <= k < next.len() implies is_digit(#[trigger] next[k]) by {
                if k < i - start {
                    assert(next[k] == d.take(i - start)[k]);
                }
            }
            if value * 10 + digit > max {
                assert(exceeds(s@, max as int));
                if all_digits(d) {
                    lemma_digits_value_grows(d, i - start + 1);
                }
            }
        }
        if value > (u64::MAX - digit) / 10 {
            return Err(NumberFault::TooLarge);
        }
        value = value * 10 + digit;
        if value > max {
            return Err(NumberFault::TooLarge);
        }
        i += 1;
    }
    assert(d.take(i - start) == d);
    if start == v.len() {
        proof {
            if exceeds(s@, max as int) {
                let n = choose|n: int|
                    0 <= n <= d.len() && all_digits(d.take(n)) && #[trigger] digits_value(d.take(n))
                        > max;
                assert(d.take(n) =~= d);
            }
        }
        return Err(NumberFault::InvalidDigit);
    }
    Ok(value)
}

/// The number that `s` stands for, if it is one and no greater than `max`, as `str::parse` gives
/// it for an unsigned type with that greatest value.
pub fn parse_number(s: &str, max: u64) -> (r: Option<u64>)
    ensures
        r is Some <==> (number(s@) matches Some(n) && n <= max),
        r matches Some(n) ==> number(s@) == Some(n as nat),
{
    match parse_or_fault(s, max) {
        Ok(n) => Some(n),
        Err(_) => None,
    }
}

/// Further digits never make a number smaller.
pub proof fn lemma_digits_value_grows(s: Seq<char>, n: int)
    requires
        0 <= n <= s.len(),
        all_digits(s),
    ensures
        digits_value(s.take(n)) <= digits_value(s),
    decreases s.len(),
{
    if n < s.len() {
        assert(s.drop_last().take(n) == s.take(n));
        assert forall|i: int| 0 <= i < s.drop_last().len() implies is_digit(
            #[trigger] s.drop_last()[i],
        ) by {
            assert(s.drop_last()[i] == s[i]);
        }
        lemma_digits_value_grows(s.drop_last(), n);
    } else {
        assert(s.take(n) == s);
    }
}

/// The decimal form of a number has nothing but digits, at least one, and stands for it.
pub proof fn lemma_decimal(n: nat)
    ensures
        decimal(n).len() > 0,
        all_digits(decimal(n)),
        digits_value(decimal(n)) == n,
        number(decimal(n)) == Some(n),
    decreases n,
{
    if n < 10 {
        assert(decimal(n).drop_last() =~= seq![]);
        assert(digits_value(decimal(n).drop_last()) == 0);
        assert(digits_value(decimal(n)) == n);
    } else {
        lemma_decimal(n / 10);
        let d = decimal(n);
        assert(d.drop_last() =~= decimal(n / 10));
        assert forall|i: int| 0 <= i < d.len() implies is_digit(#[trigger] d[i]) by {
            if i < d.len() - 1 {
                assert(d[i] == decimal(n / 10)[i]);
            }
        }
    }
    assert(is_digit(decimal(n)[0]));
}

/// Zeros in front of digits do not change the number.
pub proof fn lemma_zero_padded(s: Seq<char>, width: nat)
    requires
        s.len() > 0,
        all_digits(s),
    ensures
        all_digits(zero_padded(s, width)),
        digits_value(zero_padded(s, width)) == digits_value(s),
        number(zero_padded(s, width)) == Some(digits_value(s)),
        zero_padded(s, width).len() == (if s.len() >= width {
            s.len()
        } else {
            width
        }),
{
    if s.len() < width {
        let n = (width - s.len()) as nat;
        let zeros = Seq::new(n, |i: int| '0');
        lemma_zeros_in_front(n, s);
    }
    assert(is_digit(zero_padded(s, width)[0]));
}

proof fn lemma_zeros_in_front(n: nat, s: Seq<char>)
    requires
        all_digits(s),
    ensures
        all_digits(Seq::new(n, |i: int| '0') + s),
        digits_value(Seq::new(n, |i: int| '0') + s) == digits_value(s),
    decreases s.len() + n,
{
    let zeros = Seq::new(n, |i: int| '0');
    let all = zeros + s;
    if s.len() > 0 {
        assert(all.drop_last() =~= zeros + s.drop_last());
        assert forall|i: int| 0 <= i < s.drop_last().len() implies is_digit(
            #[trigger] s.drop_last()[i],
        ) by {
            assert(s.drop_last()[i] == s[i]);
        }
        lemma_zeros_in_front(n, s.drop_last());
    } else if n > 0 {
        assert(all.drop_last() =~= Seq::new((n - 1) as nat, |i: int| '0') + s);
        lemma_zeros_in_front((n - 1) as nat, s);
    } else {
        assert(all =~= s);
    }
    assert forall|i: int| 0 <= i < all.len() implies is_digit(#[trigger] all[i]) by {
        if i >= n {
            assert(all[i] == s[i - n]);
        }
    }
}

// ---------------------------------------------------------------------------
// Order
// ---------------------------------------------------------------------------

/// `a` stands before `b` in the order of code points, which is the order of `str`.
pub open spec fn text_lt(a: Seq<char>, b: Seq<char>) -> bool
    decreases a.len(),
{
    if b.len() == 0 {
        false
    } else if a.len() == 0 {
        true
    } else if a[0] == b[0] {
        text_lt(a.skip(1), b.skip(1))
    } else {
        a[0] < b[0]
    }
}

/// Whether `a` stands before `b`.
pub fn before(a: &str, b: &str) -> (r: bool)
    ensures
        r == text_lt(a@, b@),
{
    let v = chars_of(a);
    let w = chars_of(b);
    let mut i: usize = 0;
    assert(v@.skip(0) == v@ && w@.skip(0) == w@);
    while i < v.len() && i < w.len()
        invariant
            i <= v@.len(),
            i <= w@.len(),
            v@ == a@,
            w@ == b@,
            text_lt(v@, w@) == text_lt(v@.skip(i as int), w@.skip(i as int)),
        decreases v@.len() - i,
    {
        if v[i] != w[i] {
            return v[i] < w[i];
        }
        assert(v@.skip(i as int).skip(1) == v@.skip(i + 1));
        assert(w@.skip(i as int).skip(1) == w@.skip(i + 1));
        i += 1;
    }
    i < w.len()
}

/// No text stands before itself.
pub proof fn lemma_text_lt_irreflexive(a: Seq<char>)
    ensures
        !text_lt(a, a),
    decreases a.len(),
{
    if a.len() > 0 {
        lemma_text_lt_irreflexive(a.skip(1));
    }
}

/// The order of texts is transitive.
pub proof fn lemma_text_lt_transitive(a: Seq<char>, b: Seq<char>, c: Seq<char>)
    requires
        text_lt(a, b),
        text_lt(b, c),
    ensures
        text_lt(a, c),
    decreases a.len(),
{
    if a.len() > 0 && b.len() > 0 && c.len() > 0 && a[0] == b[0] && b[0] == c[0] {
        lemma_text_lt_transitive(a.skip(1), b.skip(1), c.skip(1));
    }
}

/// Of two different texts one stands before the other.
pub proof fn lemma_text_lt_total(a: Seq<char>, b: Seq<char>)
    ensures
        text_lt(a, b) || a == b || text_lt(b, a),
    decreases a.len(),
{
    if a.len() > 0 && b.len() > 0 && a[0] == b[0] {
        lemma_text_lt_total(a.skip(1), b.skip(1));
        if a.skip(1) == b.skip(1) {
            assert(a =~= seq![a[0]] + a.skip(1));
            assert(b =~= seq![b[0]] + b.skip(1));
        }
    } else if a.len() == 0 && b.len() == 0 {
        assert(a =~= b);
    }
}

/// Index `i` comes before index `j` when the items are ordered by `keys`; equal keys keep
/// their order.
pub open spec fn key_before(keys: Seq<Seq<char>>, i: int, j: int) -> bool {
    text_lt(keys[i], keys[j]) || (keys[i] == keys[j] && i < j)
}

/// `order` lists the indices of `keys`, each once, by ascending key.
pub open spec fn is_order_of(keys: Seq<Seq<char>>, order: Seq<usize>) -> bool {
    &&& order.len() == keys.len()
    &&& forall|i: int| 0 <= i < order.len() ==> #[trigger] order[i] < keys.len()
    &&& forall|i: int, j: int|
        0 <= i < j < order.len() ==> key_before(keys, #[trigger] order[i] as int, #[trigger] order[j] as int)
}

/// An order of `keys` lists every index.
pub proof fn lemma_order_lists_all(keys: Seq<Seq<char>>, order: Seq<usize>, i: int)
    requires
        is_order_of(keys, order),
        0 <= i < keys.len(),
        keys.len() <= usize::MAX,
    ensures
        exists|k: int| 0 <= k < order.len() && order[k] == i,
{
    let a = order.map_values(|x: usize| (x, ()));
    let b = Seq::new(keys.len(), |x: int| (x as usize, ()));
    assert forall|p: int, q: int| 0 <= p < q < a.len() implies (#[trigger] a[p]).0 != (#[trigger] a[
        q]).0 by {
        assert(a[p].0 == order[p] && a[q].0 == order[q]);
        assert(key_before(keys, order[p] as int, order[q] as int));
        lemma_text_lt_irreflexive(keys[order[p] as int]);
    }
    assert forall|p: int| 0 <= p < a.len() implies crate::names::has_name(b, (#[trigger] a[p]).0) by {
        assert(a[p].0 == order[p]);
        assert(b[order[p] as int].0 == order[p]);
    }
    assert(b[i].0 == i as usize);
    crate::names::lemma_same_names(a, b, i as usize);
    let k = crate::names::position(a, i as usize);
    assert(a[k].0 == order[k]);
}

/// The place in `order` at which the index `k` belongs: behind all whose keys are not greater.
pub open spec fn place_in(keys: Seq<Seq<char>>, order: Seq<usize>, k: int) -> int
    decreases order.len(),
{
    if order.len() > 0 && text_lt(keys[k], keys[order.last() as int]) {
        place_in(keys, order.drop_last(), k)
    } else {
        order.len() as int
    }
}

/// The first `n` indices of `keys` by ascending key, equal keys in their given order.
pub open spec fn sorted_order(keys: Seq<Seq<char>>, n: int) -> Seq<usize>
    decreases n,
{
    if n <= 0 {
        seq![]
    } else {
        let before = sorted_order(keys, n - 1);
        before.insert(place_in(keys, before, n - 1), (n - 1) as usize)
    }
}

proof fn lemma_place_in(keys: Seq<Seq<char>>, order: Seq<usize>, k: int, p: int)
    requires
        0 <= p <= order.len(),
        forall|i: int|
            p <= i < order.len() ==> text_lt(keys[k], keys[#[trigger] order[i] as int]),
        p > 0 ==> !text_lt(keys[k], keys[order[p - 1] as int]),
    ensures
        place_in(keys, order, k) == p,
    decreases order.len(),
{
    if p < order.len() {
        assert(text_lt(keys[k], keys[order[order.len() - 1] as int]));
        let front = order.drop_last();
        assert forall|i: int| p <= i < front.len() implies text_lt(
            keys[k],
            keys[#[trigger] front[i] as int],
        ) by {
            assert(front[i] == order[i]);
        }
        lemma_place_in(keys, front, k, p);
    }
}

/// What stands from the place of an index on has a greater key than it, and what stands before has
/// not.
proof fn lemma_place_parts(keys: Seq<Seq<char>>, order: Seq<usize>, k: int)
    ensures
        0 <= place_in(keys, order, k) <= order.len(),
        forall|i: int|
            place_in(keys, order, k) <= i < order.len() ==> text_lt(
                keys[k],
                keys[#[trigger] order[i] as int],
            ),
        place_in(keys, order, k) > 0 ==> !text_lt(
            keys[k],
            keys[order[place_in(keys, order, k) - 1] as int],
        ),
    decreases order.len(),
{
    if order.len() > 0 && text_lt(keys[k], keys[order.last() as int]) {
        let front = order.drop_last();
        lemma_place_parts(keys, front, k);
        let p = place_in(keys, order, k);
        assert forall|i: int| p <= i < order.len() implies text_lt(
            keys[k],
            keys[#[trigger] order[i] as int],
        ) by {
            if i < front.len() {
                assert(front[i] == order[i]);
            }
        }
        if p > 0 {
            assert(front[p - 1] == order[p - 1]);
        }
    }
}

/// The first indices by ascending key are an order of them.
pub proof fn lemma_sorted_order(keys: Seq<Seq<char>>, n: int)
    requires
        0 <= n <= keys.len() <= usize::MAX,
    ensures
        sorted_order(keys, n).len() == n,
        forall|i: int| 0 <= i < n ==> #[trigger] sorted_order(keys, n)[i] < n,
        forall|i: int, j: int|
            0 <= i < j < n ==> key_before(
                keys,
                #[trigger] sorted_order(keys, n)[i] as int,
                #[trigger] sorted_order(keys, n)[j] as int,
            ),
    decreases n,
{
    if n > 0 {
        let k = n - 1;
        let old_order = sorted_order(keys, k);
        let order = sorted_order(keys, n);
        let p = place_in(keys, old_order, k);
        lemma_sorted_order(keys, k);
        lemma_place_parts(keys, old_order, k);
        assert(order == old_order.insert(p, k as usize));
        assert forall|i: int, j: int| 0 <= i < j < n implies key_before(
            keys,
            #[trigger] order[i] as int,
            #[trigger] order[j] as int,
        ) by {
            if j == p {
                assert(order[i] == old_order[i]);
                let last = old_order[p - 1] as int;
                lemma_text_lt_total(keys[last], keys[k]);
                if i < p - 1 {
                    assert(key_before(keys, old_order[i] as int, old_order[p - 1] as int));
                    if text_lt(keys[old_order[i] as int], keys[last]) && text_lt(
                        keys[last],
                        keys[k],
                    ) {
                        lemma_text_lt_transitive(keys[old_order[i] as int], keys[last], keys[k]);
                    }
                }
            } else if i == p {
                assert(order[j] == old_order[j - 1]);
            } else {
                let i0 = if i < p { i } else { i - 1 };
                let j0 = if j < p { j } else { j - 1 };
                assert(order[i] == old_order[i0] && order[j] == old_order[j0]);
            }
        }
        assert forall|i: int| 0 <= i < n implies #[trigger] order[i] < n by {
            if i < p {
                assert(order[i] == old_order[i]);
            } else if i > p {
                assert(order[i] == old_order[i - 1]);
            }
        }
    }
}

/// The indices of `keys` by ascending key, equal keys in their given order.
pub fn order_of(keys: &Vec<String>) -> (order: Vec<usize>)
    ensures
        order@ == sorted_order(views(keys@), keys@.len() as int),
        is_order_of(views(keys@), order@),
{
    let mut order: Vec<usize> = Vec::new();
    let mut k: usize = 0;
    let ghost ks = views(keys@);
    while k < keys.len()
        invariant
            k <= keys@.len(),
            ks == views(keys@),
            order@ == sorted_order(ks, k as int),
        decreases keys@.len() - k,
    {
        proof {
            lemma_sorted_order(ks, k as int);
        }
        let mut p: usize = k;
        while p > 0 && before(keys[k].as_str(), keys[order[p - 1]].as_str())
            invariant
                p <= k < keys@.len(),
                ks == views(keys@),
                order@.len() == k,
                forall|i: int| 0 <= i < k ==> #[trigger] order@[i] < k,
                forall|i: int| p <= i < k ==> text_lt(ks[k as int], ks[#[trigger] order@[i] as int]),
            decreases p,
        {
            p -= 1;
        }
        proof {
            lemma_place_in(ks, order@, k as int, p as int);
        }
        order.insert(p, k);
        k += 1;
    }
    proof {
        lemma_sorted_order(ks, k as int);
    }
    order
}

/// The keys in their order.
pub open spec fn in_order(keys: Seq<Seq<char>>) -> Seq<Seq<char>> {
    let order = sorted_order(keys, keys.len() as int);
    Seq::new(order.len(), |k: int| keys[order[k] as int])
}

/// The keys in their order.
pub fn in_order_of(keys: &Vec<String>) -> (r: Vec<String>)
    ensures
        views(r@) == in_order(views(keys@)),
        forall|i: int, j: int|
            0 <= i < j < r@.len() ==> !text_lt(#[trigger] r@[j]@, #[trigger] r@[i]@),
{
    let order = order_of(keys);
    let mut r: Vec<String> = Vec::new();
    let mut k: usize = 0;
    assert(views(keys@).len() == keys@.len());
    while k < order.len()
        invariant
            k <= order@.len(),
            order@ == sorted_order(views(keys@), views(keys@).len() as int),
            is_order_of(views(keys@), order@),
            r@.len() == k,
            forall|j: int| 0 <= j < k ==> (#[trigger] r@[j])@ == views(keys@)[order@[j] as int],
        decreases order@.len() - k,
    {
        r.push(keys[order[k]].clone());
        k += 1;
    }
    assert(views(r@) =~= in_order(views(keys@)));
    assert forall|i: int, j: int| 0 <= i < j < r@.len() implies !text_lt(
        #[trigger] r@[j]@,
        #[trigger] r@[i]@,
    ) by {
        assert(key_before(views(keys@), order@[i] as int, order@[j] as int));
        lemma_text_lt_irreflexive(r@[i]@);
        if text_lt(r@[j]@, r@[i]@) && text_lt(r@[i]@, r@[j]@) {
            lemma_text_lt_transitive(r@[i]@, r@[j]@, r@[i]@);
        }
    }
    r
}

} // verus!
