//! Paths as texts, as Windows or a Unix system reads them.
//!
//! On a Unix system `/` stands between the parts of a path, and a path that begins with `/` begins
//! at the root. On Windows `\` separates parts too, and a path may begin with a drive, as `C:`, or
//! with a share, as `\\server\share`.

use vstd::prelude::*;

use crate::text::{
    begins, chars_of, join, joined, same_text, split, split_on, starts_with, string_of, views,
};

verus! {

// ---------------------------------------------------------------------------
// How paths begin
// ---------------------------------------------------------------------------

/// A character that separates the parts of a path.
pub open spec fn is_separator(c: char, windows: bool) -> bool {
    c == '/' || windows && c == '\\'
}

fn separates(c: char, windows: bool) -> (r: bool)
    ensures
        r == is_separator(c, windows),
{
    c == '/' || windows && c == '\\'
}

/// What is put between two parts of a path.
pub open spec fn separator(windows: bool) -> Seq<char> {
    if windows {
        "\\"@
    } else {
        "/"@
    }
}

fn separator_of(windows: bool) -> (r: &'static str)
    ensures
        r@ == separator(windows),
{
    if windows {
        "\\"
    } else {
        "/"
    }
}

/// A letter that a drive can have.
pub open spec fn is_letter(c: char) -> bool {
    'a' <= c <= 'z' || 'A' <= c <= 'Z'
}

fn letter(c: char) -> (r: bool)
    ensures
        r == is_letter(c),
{
    'a' <= c && c <= 'z' || 'A' <= c && c <= 'Z'
}

/// The path begins with a drive.
pub open spec fn has_drive(p: Seq<char>) -> bool {
    p.len() >= 2 && is_letter(p[0]) && p[1] == ':'
}

/// The first index from `i` on at which a separator stands, or the length of the path.
pub open spec fn next_separator(p: Seq<char>, i: int) -> int
    decreases p.len() - i,
{
    if i >= p.len() {
        p.len() as int
    } else if is_separator(p[i], true) {
        i
    } else {
        next_separator(p, i + 1)
    }
}

/// The length of the share that the path begins with: two separators, the name of a server, a
/// separator and the name of a share; 0 if it begins with none.
pub open spec fn share_len(p: Seq<char>) -> int {
    if p.len() >= 2 && is_separator(p[0], true) && is_separator(p[1], true) {
        let server = next_separator(p, 2);
        let share = next_separator(p, server + 1);
        if 2 < server && server + 1 < share {
            share
        } else {
            0
        }
    } else {
        0
    }
}

/// The length of the drive or of the share that the path begins with.
pub open spec fn lead_len(p: Seq<char>, windows: bool) -> int {
    if !windows {
        0
    } else if has_drive(p) {
        2
    } else {
        share_len(p)
    }
}

/// The path begins at a root: that of its drive or share, or else that of the system or of the
/// current drive. A share is a root by itself.
pub open spec fn is_rooted(p: Seq<char>, windows: bool) -> bool {
    let n = lead_len(p, windows);
    ||| n > 0 && !has_drive(p)
    ||| n < p.len() && is_separator(p[n], windows)
}

/// A path that does not depend on the current directory. On Windows it has a drive or a share, and
/// begins at its root.
pub open spec fn is_absolute_path(p: Seq<char>, windows: bool) -> bool {
    is_rooted(p, windows) && (windows ==> lead_len(p, windows) > 0)
}

fn find_separator(v: &Vec<char>, from: usize) -> (r: usize)
    requires
        from <= v@.len(),
    ensures
        r == next_separator(v@, from as int),
        from <= r <= v@.len(),
{
    let mut i: usize = from;
    while i < v.len() && !separates(v[i], true)
        invariant
            from <= i <= v@.len(),
            next_separator(v@, from as int) == next_separator(v@, i as int),
        decreases v@.len() - i,
    {
        i += 1;
    }
    i
}

fn length_of_lead(v: &Vec<char>, windows: bool) -> (r: usize)
    ensures
        r == lead_len(v@, windows),
        r <= v@.len(),
{
    if !windows || v.len() < 2 {
        return 0;
    }
    if letter(v[0]) && v[1] == ':' {
        return 2;
    }
    if !separates(v[0], true) || !separates(v[1], true) {
        return 0;
    }
    let server = find_separator(v, 2);
    if server == v.len() || server == 2 {
        return 0;
    }
    let share = find_separator(v, server + 1);
    if server + 1 < share {
        share
    } else {
        0
    }
}

fn begins_at_root(v: &Vec<char>, windows: bool) -> (r: bool)
    ensures
        r == is_rooted(v@, windows),
{
    let n = length_of_lead(v, windows);
    if n > 0 && !(letter(v[0]) && v[1] == ':') {
        return true;
    }
    n < v.len() && separates(v[n], windows)
}

/// Whether the path does not depend on the current directory.
pub fn is_absolute(p: &str, windows: bool) -> (r: bool)
    ensures
        r == is_absolute_path(p@, windows),
{
    let v = chars_of(p);
    begins_at_root(&v, windows) && (!windows || length_of_lead(&v, windows) > 0)
}

// ---------------------------------------------------------------------------
// Paths seen from directories
// ---------------------------------------------------------------------------

/// A path that Windows takes as it stands: it begins with `\\?\`.
pub open spec fn is_verbatim(p: Seq<char>) -> bool {
    starts_with(p, "\\\\?\\"@)
}

/// `b`, seen from the directory `a`. What has a drive or a share stands for itself; what begins at
/// a root stays on the drive or the share of the directory. In a verbatim path `..` is a name like
/// any other, so the ways up in `b` are taken before it is joined to one.
pub open spec fn join_path(a: Seq<char>, b: Seq<char>, windows: bool) -> Seq<char> {
    if lead_len(b, windows) > 0 {
        b
    } else if windows && is_verbatim(a) && b.len() > 0 {
        let before = if is_rooted(b, windows) {
            seq![]
        } else {
            parts(a, windows)
        };
        a.take(lead_len(a, windows)) + separator(windows) + join(
            folded(before + parts(b, windows)).filter(|part: Seq<char>| part != ".."@),
            separator(windows),
        )
    } else if is_rooted(b, windows) {
        a.take(lead_len(a, windows)) + b
    } else if takes_no_separator(a, windows) {
        a + b
    } else {
        a + separator(windows) + b
    }
}

/// A relative path follows the directory directly: there is nothing or a separator at its end, or
/// it is nothing but a drive.
pub open spec fn takes_no_separator(a: Seq<char>, windows: bool) -> bool {
    ||| a.len() == 0
    ||| is_separator(a.last(), windows)
    ||| windows && a.len() == 2 && has_drive(a)
}

fn joined_verbatim(a: &str, b: &str) -> (r: String)
    requires
        lead_len(b@, true) == 0,
        is_verbatim(a@),
        b@.len() > 0,
    ensures
        r@ == join_path(a@, b@, true),
{
    let v = chars_of(a);
    let w = chars_of(b);
    let n = length_of_lead(&v, true);
    let lead = string_of(v.as_slice(), 0, n);
    assert(lead@ =~= a@.take(n as int));
    let mut all: Vec<String> = if begins_at_root(&w, true) {
        Vec::new()
    } else {
        parts_of(a, true)
    };
    let ghost before = if is_rooted(b@, true) {
        seq![]
    } else {
        parts(a@, true)
    };
    assert(views(all@) =~= before);
    let mut more = parts_of(b, true);
    let ghost first = all@;
    let ghost second = more@;
    all.append(&mut more);
    assert(views(all@) =~= before + parts(b@, true)) by {
        assert(all@ == first + second);
        assert(views(first + second) =~= views(first) + views(second));
    }
    let flat = normalize_parts(&all);
    let kept = without_ways_up(&flat);
    lead.concat(separator_of(true)).concat(joined(&kept, separator_of(true)).as_str())
}

fn without_ways_up(ps: &Vec<String>) -> (r: Vec<String>)
    ensures
        views(r@) == views(ps@).filter(|part: Seq<char>| part != ".."@),
{
    let ghost all = views(ps@);
    let ghost keep = |part: Seq<char>| part != ".."@;
    let mut r: Vec<String> = Vec::new();
    let mut i: usize = 0;
    assert(views(r@) =~= all.take(0).filter(keep)) by {
        reveal(Seq::filter);
    }
    while i < ps.len()
        invariant
            i <= ps@.len(),
            all == views(ps@),
            keep == (|part: Seq<char>| part != ".."@),
            views(r@) == all.take(i as int).filter(keep),
        decreases ps@.len() - i,
    {
        assert(all[i as int] == ps@[i as int]@);
        proof {
            reveal(Seq::filter);
            assert(all.take(i + 1).drop_last() =~= all.take(i as int));
        }
        if !same_text(ps[i].as_str(), "..") {
            let ghost done = r@;
            r.push(ps[i].clone());
            assert(views(r@) =~= views(done).push(all[i as int]));
        }
        i += 1;
    }
    assert(all.take(i as int) =~= all);
    r
}

/// `b`, seen from the directory `a`, as `Path::join` gives it.
pub fn joined_path(a: &str, b: &str, windows: bool) -> (r: String)
    ensures
        r@ == join_path(a@, b@, windows),
{
    let v = chars_of(a);
    let w = chars_of(b);
    if length_of_lead(&w, windows) > 0 {
        return b.to_owned();
    }
    if windows && w.len() > 0 && begins(a, "\\\\?\\") {
        return joined_verbatim(a, b);
    }
    if begins_at_root(&w, windows) {
        let n = length_of_lead(&v, windows);
        let lead = string_of(v.as_slice(), 0, n);
        assert(lead@ =~= a@.take(n as int));
        return lead.concat(b);
    }
    let n: usize = v.len();
    if n == 0 || separates(v[n - 1], windows) || windows && n == 2 && letter(v[0]) && v[1] == ':' {
        a.to_owned().concat(b)
    } else {
        a.to_owned().concat(separator_of(windows)).concat(b)
    }
}

/// A relative path never leads out of the directory by being joined to it: the directory stands
/// before it, unless it is a verbatim one.
pub proof fn law_join_keeps_the_directory(a: Seq<char>, b: Seq<char>, windows: bool)
    requires
        lead_len(b, windows) == 0,
        !is_rooted(b, windows),
        !(windows && is_verbatim(a)),
    ensures
        starts_with(join_path(a, b, windows), a),
{
    reveal_strlit("/");
    reveal_strlit("\\");
    assert(join_path(a, b, windows).subrange(0, a.len() as int) =~= a);
}

/// `path` seen from the directory `cwd`, if that is known.
pub open spec fn absolute(path: Seq<char>, cwd: Option<Seq<char>>, windows: bool) -> Seq<char> {
    if is_absolute_path(path, windows) {
        path
    } else {
        match cwd {
            Some(dir) => join_path(dir, path, windows),
            None => path,
        }
    }
}

/// Convert a path to absolute by joining it with the current working directory `cwd`.
/// If the path is already absolute, or the directory is not known, it is returned unchanged.
pub fn to_absolute(path: &str, cwd: Option<&str>, windows: bool) -> (r: String)
    ensures
        r@ == absolute(path@, crate::text::opt_str_view(cwd), windows),
{
    if is_absolute(path, windows) {
        return path.to_owned();
    }
    match cwd {
        Some(dir) => joined_path(dir, path, windows),
        None => path.to_owned(),
    }
}

// ---------------------------------------------------------------------------
// Parts
// ---------------------------------------------------------------------------

/// The text with `/` in place of every separator.
pub open spec fn with_slashes(p: Seq<char>, windows: bool) -> Seq<char> {
    p.map_values(
        |c: char|
            if is_separator(c, windows) {
                '/'
            } else {
                c
            },
    )
}

/// What follows the drive or the share of a path, with `/` between the parts.
pub open spec fn tail(p: Seq<char>, windows: bool) -> Seq<char> {
    with_slashes(p.skip(lead_len(p, windows)), windows)
}

fn tail_of(p: &str, windows: bool) -> (r: String)
    ensures
        r@ == tail(p@, windows),
{
    let v = chars_of(p);
    let n = length_of_lead(&v, windows);
    let ghost rest = p@.skip(n as int);
    let mut r = String::new();
    let mut i: usize = n;
    assert(r@ =~= with_slashes(rest.take(0), windows));
    while i < v.len()
        invariant
            n <= i <= v@.len(),
            v@ == p@,
            rest == p@.skip(n as int),
            r@ == with_slashes(rest.take(i - n), windows),
        decreases v@.len() - i,
    {
        if separates(v[i], windows) {
            r.push('/');
        } else {
            r.push(v[i]);
        }
        assert(r@ =~= with_slashes(rest.take(i + 1 - n), windows));
        i += 1;
    }
    assert(rest.take(i - n) =~= rest);
    r
}

/// The parts of a path: what stands between separators after its drive or share, without what is
/// empty or a single dot.
pub open spec fn parts(p: Seq<char>, windows: bool) -> Seq<Seq<char>> {
    split(tail(p, windows), '/').filter(|part: Seq<char>| is_part(part))
}

/// A part that leads somewhere.
pub open spec fn is_part(part: Seq<char>) -> bool {
    part.len() > 0 && part != "."@
}

/// The parts without those that a part `..` after them takes back.
pub open spec fn folded(ps: Seq<Seq<char>>) -> Seq<Seq<char>>
    decreases ps.len(),
{
    if ps.len() == 0 {
        seq![]
    } else {
        let before = folded(ps.drop_last());
        if ps.last() == ".."@ && before.len() > 0 && before.last() != ".."@ {
            before.drop_last()
        } else {
            before.push(ps.last())
        }
    }
}

/// The path with the given parts that begins as `p` does.
pub open spec fn path_like(p: Seq<char>, ps: Seq<Seq<char>>, windows: bool) -> Seq<char> {
    let lead = p.take(lead_len(p, windows));
    if is_rooted(p, windows) {
        lead + separator(windows) + join(ps, separator(windows))
    } else {
        lead + join(ps, separator(windows))
    }
}

/// The path with the given parts that begins as `p` does.
pub fn path_with_parts(p: &str, ps: &Vec<String>, windows: bool) -> (r: String)
    ensures
        r@ == path_like(p@, views(ps@), windows),
{
    let v = chars_of(p);
    let n = length_of_lead(&v, windows);
    let lead = string_of(v.as_slice(), 0, n);
    assert(lead@ =~= p@.take(n as int));
    let text = joined(ps, separator_of(windows));
    if begins_at_root(&v, windows) {
        lead.concat(separator_of(windows)).concat(text.as_str())
    } else {
        lead.concat(text.as_str())
    }
}

/// The same character, or the other case of the same letter.
pub open spec fn same_letter(a: char, b: char) -> bool {
    ||| a == b
    ||| is_letter(a) && is_letter(b) && (a as int - b as int == 32 || b as int - a as int == 32)
}

/// Both paths begin with the same drive, whatever the case of its letter, with the same share, or
/// with neither.
pub open spec fn same_lead(p: Seq<char>, q: Seq<char>, windows: bool) -> bool {
    let n = lead_len(p, windows);
    &&& n == lead_len(q, windows)
    &&& if has_drive(p) && n > 0 {
        has_drive(q) && same_letter(p[0], q[0])
    } else {
        with_slashes(p.take(n), windows) == with_slashes(q.take(n), windows)
    }
}

/// A path that begins as `p` does and has the parts `ps` lies under the directory `dir`.
pub open spec fn lies_under(
    p: Seq<char>,
    ps: Seq<Seq<char>>,
    dir: Seq<char>,
    windows: bool,
) -> bool {
    &&& same_lead(p, dir, windows)
    &&& is_rooted(p, windows) == is_rooted(dir, windows)
    &&& parts(dir, windows).len() <= ps.len()
    &&& ps.take(parts(dir, windows).len() as int) == parts(dir, windows)
}

fn leads_agree(v: &Vec<char>, w: &Vec<char>, windows: bool) -> (r: bool)
    ensures
        r == same_lead(v@, w@, windows),
{
    let n = length_of_lead(v, windows);
    if n != length_of_lead(w, windows) {
        return false;
    }
    if n > 0 && letter(v[0]) && v[1] == ':' {
        let a: u32 = v[0] as u32;
        let b: u32 = w[0] as u32;
        return letter(w[0]) && w[1] == ':' && (a == b || a + 32 == b || b + 32 == a);
    }
    let ghost p = with_slashes(v@.take(n as int), windows);
    let ghost q = with_slashes(w@.take(n as int), windows);
    let mut i: usize = 0;
    while i < n
        invariant
            i <= n <= v@.len(),
            n <= w@.len(),
            n == lead_len(v@, windows) == lead_len(w@, windows),
            !(has_drive(v@) && n > 0),
            p == with_slashes(v@.take(n as int), windows),
            q == with_slashes(w@.take(n as int), windows),
            forall|k: int| 0 <= k < i ==> p[k] == q[k],
        decreases n - i,
    {
        let both = separates(v[i], windows) && separates(w[i], windows);
        if !both && v[i] != w[i] {
            assert(p[i as int] != q[i as int]);
            return false;
        }
        i += 1;
    }
    assert(p =~= q);
    true
}

/// Whether a path that begins as `p` does and has the parts `ps` lies under the directory `dir`.
pub fn is_under(p: &str, ps: &Vec<String>, dir: &str, windows: bool) -> (r: bool)
    ensures
        r == lies_under(p@, views(ps@), dir@, windows),
{
    let v = chars_of(p);
    let w = chars_of(dir);
    let dir_parts = parts_of(dir, windows);
    assert(views(dir_parts@).len() == dir_parts@.len());
    assert(views(ps@).len() == ps@.len());
    leads_agree(&v, &w, windows) && begins_at_root(&v, windows) == begins_at_root(&w, windows)
        && parts_begin_with(ps, &dir_parts)
}

/// The parts of a path.
pub fn parts_of(p: &str, windows: bool) -> (r: Vec<String>)
    ensures
        views(r@) == parts(p@, windows),
{
    let all = split_on(tail_of(p, windows).as_str(), '/');
    let ghost pieces = split(tail(p@, windows), '/');
    let ghost keep = |part: Seq<char>| is_part(part);
    let mut r: Vec<String> = Vec::new();
    let mut i: usize = 0;
    assert(all@.len() == views(all@).len());
    assert(views(r@) =~= pieces.take(0).filter(keep)) by {
        reveal(Seq::filter);
    }
    while i < all.len()
        invariant
            i <= all@.len(),
            all@.len() == pieces.len(),
            views(all@) == pieces,
            keep == (|part: Seq<char>| is_part(part)),
            views(r@) == pieces.take(i as int).filter(keep),
        decreases all@.len() - i,
    {
        assert(pieces[i as int] == all@[i as int]@);
        proof {
            reveal(Seq::filter);
            assert(pieces.take(i + 1).drop_last() =~= pieces.take(i as int));
        }
        if !all[i].as_str().is_empty() && !same_text(all[i].as_str(), ".") {
            let ghost done = r@;
            r.push(all[i].clone());
            assert(views(r@) =~= views(done).push(pieces[i as int]));
        }
        i += 1;
    }
    assert(pieces.take(i as int) =~= pieces);
    r
}

/// Takes back what the parts `..` of a path take back, without looking at any file.
pub fn normalize_parts(ps: &Vec<String>) -> (r: Vec<String>)
    ensures
        views(r@) == folded(views(ps@)),
{
    let ghost all = views(ps@);
    let mut r: Vec<String> = Vec::new();
    let mut i: usize = 0;
    assert(views(r@) =~= folded(all.take(0)));
    while i < ps.len()
        invariant
            i <= ps@.len(),
            all == views(ps@),
            views(r@) == folded(all.take(i as int)),
        decreases ps@.len() - i,
    {
        assert(all[i as int] == ps@[i as int]@);
        assert(all.take(i + 1).drop_last() =~= all.take(i as int));
        assert(views(r@).len() == r@.len());
        let ghost done = r@;
        let n: usize = r.len();
        let mut back = false;
        if n > 0 && same_text(ps[i].as_str(), "..") {
            assert(views(r@).last() == r@[n - 1]@);
            back = !same_text(r[n - 1].as_str(), "..");
        }
        if back {
            r.pop();
            assert(views(r@) =~= views(done).drop_last());
        } else {
            r.push(ps[i].clone());
            assert(views(r@) =~= views(done).push(all[i as int]));
        }
        i += 1;
    }
    assert(all.take(i as int) =~= all);
    r
}

/// Whether the parts of a path begin with those of a directory.
pub fn parts_begin_with(ps: &Vec<String>, dir: &Vec<String>) -> (r: bool)
    ensures
        r == (dir@.len() <= ps@.len() && views(ps@).take(dir@.len() as int) == views(dir@)),
{
    if dir.len() > ps.len() {
        return false;
    }
    let mut i: usize = 0;
    while i < dir.len()
        invariant
            i <= dir@.len() <= ps@.len(),
            forall|k: int| 0 <= k < i ==> (#[trigger] ps@[k])@ == dir@[k]@,
        decreases dir@.len() - i,
    {
        if !same_text(ps[i].as_str(), dir[i].as_str()) {
            assert(views(ps@).take(dir@.len() as int)[i as int] == ps@[i as int]@);
            assert(views(dir@)[i as int] == dir@[i as int]@);
            return false;
        }
        i += 1;
    }
    assert(views(ps@).take(dir@.len() as int) =~= views(dir@));
    true
}

/// After the parts were folded, `..` stands at most at the beginning: nothing that follows another
/// part leads back up.
pub proof fn law_folded_paths_lead_down(ps: Seq<Seq<char>>, i: int, j: int)
    requires
        0 <= i < j < folded(ps).len(),
        folded(ps)[j] == ".."@,
    ensures
        folded(ps)[i] == ".."@,
    decreases ps.len(),
{
    let before = folded(ps.drop_last());
    if ps.last() == ".."@ && before.len() > 0 && before.last() != ".."@ {
        law_folded_paths_lead_down(ps.drop_last(), i, j);
    } else if j < before.len() {
        law_folded_paths_lead_down(ps.drop_last(), i, j);
    } else if i < before.len() - 1 {
        law_folded_paths_lead_down(ps.drop_last(), i, before.len() - 1);
    }
}

} // verus!
