//! What is listed of directories and files, and which paths lead where.

use vstd::prelude::*;

use crate::error::CruiseError;
use crate::gui::commands::{list_directory, DirEntryDto, FoundEntry};
use crate::gui::events::WorkflowEvent;
use crate::gui::session_run::Batch;
use crate::llm_api::{read_candidate, validate_read_file_path};
use crate::path::{
    folded, is_part, normalize_parts, parts, parts_begin_with, parts_of, with_slashes,
};
use crate::resolver::{collect_yaml_files, is_config_entry, DirEntry};
use crate::session::{
    cruise_home, loaded_states, state_in, Listing, SessionEntry, SessionManager, SessionState,
    StateRead,
};
use crate::text::{
    in_order, is_order_of, lemma_order_lists_all, lemma_sorted_order, opt_view, sorted_order, split,
    text_lt, views,
};

use super::sessions::lemma_filter_holds;

verus! {

// ---------------------------------------------------------------------------
// Listings
// ---------------------------------------------------------------------------

proof fn lemma_in_order_holds(keys: Seq<Seq<char>>)
    requires
        keys.len() <= usize::MAX,
    ensures
        in_order(keys).len() == keys.len(),
        forall|k: Seq<char>| in_order(keys).contains(k) <==> keys.contains(k),
        forall|i: int, j: int|
            0 <= i < j < keys.len() ==> text_lt(
                #[trigger] in_order(keys)[i],
                #[trigger] in_order(keys)[j],
            ) || in_order(keys)[i] == in_order(keys)[j],
{
    let order = sorted_order(keys, keys.len() as int);
    lemma_sorted_order(keys, keys.len() as int);
    assert(is_order_of(keys, order));
    assert forall|k: Seq<char>| in_order(keys).contains(k) <==> keys.contains(k) by {
        if in_order(keys).contains(k) {
            let i = choose|i: int| 0 <= i < in_order(keys).len() && in_order(keys)[i] == k;
            assert(keys[order[i] as int] == k);
        }
        if keys.contains(k) {
            let i = choose|i: int| 0 <= i < keys.len() && keys[i] == k;
            lemma_order_lists_all(keys, order, i);
            let j = choose|j: int| 0 <= j < order.len() && order[j] == i;
            assert(in_order(keys)[j] == k);
        }
    }
    assert forall|i: int, j: int| 0 <= i < j < keys.len() implies text_lt(
        #[trigger] in_order(keys)[i],
        #[trigger] in_order(keys)[j],
    ) || in_order(keys)[i] == in_order(keys)[j] by {
        assert(crate::text::key_before(keys, order[i] as int, order[j] as int));
    }
}

/// The workflows of a directory are its files that are called like one, each of them, in the order
/// of their names.
pub proof fn law_workflows_of_a_directory_are_listed(
    entries: &Vec<DirEntry>,
    r: Vec<String>,
    name: Seq<char>,
    i: int,
    j: int,
)
    requires
        call_ensures(collect_yaml_files, (entries,), r),
        entries@.len() <= usize::MAX,
    ensures
        views(r@).contains(name) <==> exists|k: int|
            0 <= k < entries@.len() && (#[trigger] entries@[k]).is_file && is_config_entry(
                entries@[k],
            ) && entries@[k].name@ == name,
        0 <= i < j < r@.len() ==> text_lt(r@[i]@, r@[j]@) || r@[i]@ == r@[j]@,
{
    let keep = |e: DirEntry| is_config_entry(e);
    let kept = entries@.filter(keep);
    let names = crate::resolver::config_names(entries@);
    lemma_filter_holds(entries@, keep);
    assert(names.len() == kept.len());
    lemma_in_order_holds(names);
    if names.contains(name) {
        let p = choose|p: int| 0 <= p < names.len() && names[p] == name;
        assert(kept.contains(kept[p]));
        assert(entries@.contains(kept[p]));
        let k = choose|k: int| 0 <= k < entries@.len() && entries@[k] == kept[p];
        assert(entries@[k].is_file);
    }
    if exists|k: int|
        0 <= k < entries@.len() && (#[trigger] entries@[k]).is_file && is_config_entry(entries@[k])
            && entries@[k].name@ == name {
        let k = choose|k: int|
            0 <= k < entries@.len() && (#[trigger] entries@[k]).is_file && is_config_entry(
                entries@[k],
            ) && entries@[k].name@ == name;
        assert(entries@.contains(entries@[k]));
        assert(kept.contains(entries@[k]));
        let p = choose|p: int| 0 <= p < kept.len() && kept[p] == entries@[k];
        assert(names[p] == name);
    }
    if 0 <= i < j < r@.len() {
        assert(views(r@)[i] == r@[i]@ && views(r@)[j] == r@[j]@);
    }
}

/// Of a directory its directories are listed that are not hidden, the first fifty in the order of
/// their names.
pub proof fn law_hidden_directories_are_not_listed(
    dir: &str,
    entries: &Vec<FoundEntry>,
    windows: bool,
    r: Vec<DirEntryDto>,
    i: int,
    j: int,
)
    requires
        call_ensures(list_directory, (dir, entries, windows), r),
        entries@.len() <= usize::MAX,
        0 <= i < r@.len(),
    ensures
        r@.len() <= 50,
        exists|k: int|
            0 <= k < entries@.len() && (#[trigger] entries@[k]).is_dir && entries@[k].name@
                == r@[i].name@,
        r@[i].name@.len() == 0 || r@[i].name@[0] != '.',
        i < j < r@.len() ==> text_lt(r@[i].name@, r@[j].name@) || r@[i].name@ == r@[j].name@,
{
    let keep = |e: FoundEntry| crate::gui::commands::is_listed(e);
    let kept = entries@.filter(keep);
    let names = crate::gui::commands::listed_names(entries@);
    lemma_filter_holds(entries@, keep);
    assert(names.len() == kept.len());
    lemma_in_order_holds(names);
    let shown = in_order(names);
    assert(r@[i].name@ == shown[i]);
    assert(shown.contains(shown[i]));
    assert(names.contains(shown[i]));
    let p = choose|p: int| 0 <= p < names.len() && names[p] == shown[i];
    assert(kept.contains(kept[p]));
    assert(entries@.contains(kept[p]));
    let k = choose|k: int| 0 <= k < entries@.len() && entries@[k] == kept[p];
    assert(entries@[k].is_dir);
    if i < j < r@.len() {
        assert(r@[j].name@ == shown[j]);
    }
}

proof fn lemma_loaded_states(entries: Seq<SessionEntry>, s: SessionState)
    ensures
        loaded_states(entries).contains(s) <==> exists|i: int|
            0 <= i < entries.len() && state_in(#[trigger] entries[i]) == Some(s),
        loaded_states(entries).len() <= entries.len(),
    decreases entries.len(),
{
    if entries.len() > 0 {
        let front = entries.drop_last();
        let n = entries.len() - 1;
        lemma_loaded_states(front, s);
        let all = loaded_states(entries);
        let before = loaded_states(front);
        if all.contains(s) {
            let k = choose|k: int| 0 <= k < all.len() && all[k] == s;
            if k < before.len() {
                assert(before[k] == s);
                let i = choose|i: int| 0 <= i < front.len() && state_in(#[trigger] front[i]) == Some(s);
                assert(state_in(entries[i]) == Some(s));
            } else {
                assert(state_in(entries[n]) == Some(s));
            }
        }
        if exists|i: int| 0 <= i < entries.len() && state_in(#[trigger] entries[i]) == Some(s) {
            let i = choose|i: int|
                0 <= i < entries.len() && state_in(#[trigger] entries[i]) == Some(s);
            if i < n {
                assert(state_in(front[i]) == Some(s));
                let k = choose|k: int| 0 <= k < before.len() && before[k] == s;
                assert(all[k] == s);
            } else {
                assert(all[before.len() as int] == s);
            }
        }
    }
}

/// The sessions that are found are those of the directories whose state could be read; a state that
/// cannot be read hides no other session.
pub proof fn law_every_readable_session_is_found(
    manager: &SessionManager,
    entries: &Vec<SessionEntry>,
    r: Listing,
    s: SessionState,
)
    requires
        call_ensures(SessionManager::list_found, (manager, entries), r),
        entries@.len() <= usize::MAX,
    ensures
        r.sessions@.contains(s) <==> exists|i: int|
            0 <= i < entries@.len() && (#[trigger] entries@[i]).is_dir && (
            entries@[i].read matches StateRead::Read { bytes, parsed } && parsed == Ok::<
                SessionState,
                String,
            >(s)),
{
    lemma_loaded_states(entries@, s);
    let loaded = loaded_states(entries@);
    crate::session::law_list_is_sorted(loaded, 0, 0);
    if r.sessions@.contains(s) {
        let k = choose|k: int| 0 <= k < r.sessions@.len() && r.sessions@[k] == s;
        crate::session::law_list_is_sorted(loaded, k, k);
        let i = choose|i: int| 0 <= i < entries@.len() && state_in(#[trigger] entries@[i]) == Some(s);
        assert(entries@[i].is_dir);
    }
    if exists|i: int|
        0 <= i < entries@.len() && (#[trigger] entries@[i]).is_dir && (
        entries@[i].read matches StateRead::Read { bytes, parsed } && parsed == Ok::<
            SessionState,
            String,
        >(s)) {
        let i = choose|i: int|
            0 <= i < entries@.len() && (#[trigger] entries@[i]).is_dir && (
            entries@[i].read matches StateRead::Read { bytes, parsed } && parsed == Ok::<
                SessionState,
                String,
            >(s));
        assert(state_in(entries@[i]) == Some(s));
        let k = choose|k: int| 0 <= k < loaded.len() && loaded[k] == s;
        crate::session::law_list_is_sorted(loaded, k, k);
    }
}

/// A batch takes the sessions that are planned or suspended, and says how many there are.
pub proof fn law_batches_take_planned_and_suspended_sessions(
    manager: &SessionManager,
    sessions: &Vec<SessionState>,
    r: (Batch, WorkflowEvent),
    s: SessionState,
)
    requires
        call_ensures(Batch::start, (manager, sessions), r),
    ensures
        r.0.sessions().contains(s) <==> sessions@.contains(s) && (s.phase is Planned
            || s.phase is Suspended),
        r.0.begun() == 0 && !r.0.stopped(),
        r.1 matches WorkflowEvent::RunAllStarted { total } && total == r.0.sessions().len(),
{
    assert forall|keep: spec_fn(SessionState) -> bool, t: SessionState| #[trigger]
        sessions@.filter(keep).contains(t) <==> sessions@.contains(t) && keep(t) by {
        lemma_filter_holds(sessions@, keep);
    }
}

// ---------------------------------------------------------------------------
// Paths
// ---------------------------------------------------------------------------

proof fn lemma_slashes(s: Seq<char>)
    ensures
        with_slashes(s, false) == s,
{
    assert(with_slashes(s, false) =~= s);
}

proof fn lemma_parts(p: Seq<char>)
    ensures
        parts(p, false) == split(p, '/').filter(|part: Seq<char>| is_part(part)),
{
    lemma_slashes(p);
    assert(p.skip(0) =~= p);
}

/// The parts of a path are those of the two paths that a slash in it stands between; nothing and a
/// single dot are no parts, and anything else without a slash is one.
pub proof fn law_slashes_stand_between_parts(a: Seq<char>, b: Seq<char>, p: &str, r: Vec<String>)
    requires
        call_ensures(parts_of, (p, false), r),
    ensures
        p@ == a + seq!['/'] + b ==> views(r@) == parts(a, false) + parts(b, false),
        (forall|i: int| 0 <= i < p@.len() ==> p@[i] != '/') && p@.len() > 0 && p@ != "."@ ==> views(
            r@,
        ) == seq![p@],
        p@.len() == 0 || p@ == "."@ ==> r@.len() == 0,
{
    let keep = |part: Seq<char>| is_part(part);
    assert(views(r@).len() == r@.len());
    lemma_parts(p@);
    lemma_parts(a);
    lemma_parts(b);
    if p@ == a + seq!['/'] + b {
        super::words::lemma_split_from(a, '/', b, seq![]);
        Seq::filter_distributes_over_add(split(a, '/'), split(b, '/'), keep);
    }
    reveal_strlit(".");
    if forall|i: int| 0 <= i < p@.len() ==> p@[i] != '/' {
        crate::text::lemma_split_first(p@, '/', p@);
        reveal(Seq::filter);
        let one = seq![p@];
        assert(one.drop_last() =~= Seq::<Seq<char>>::empty());
        assert(Seq::<Seq<char>>::empty().filter(keep) =~= Seq::<Seq<char>>::empty());
        assert(one.last() == p@);
        if keep(p@) {
            assert(one.filter(keep) =~= seq![p@]);
        } else {
            assert(one.filter(keep).len() == 0);
        }
    }
}

proof fn lemma_folded_without_steps_back(ps: Seq<Seq<char>>)
    requires
        forall|i: int| 0 <= i < ps.len() ==> #[trigger] ps[i] != ".."@,
    ensures
        folded(ps) == ps,
    decreases ps.len(),
{
    if ps.len() > 0 {
        assert forall|i: int| 0 <= i < ps.drop_last().len() implies #[trigger] ps.drop_last()[i]
            != ".."@ by {
            assert(ps.drop_last()[i] == ps[i]);
        }
        lemma_folded_without_steps_back(ps.drop_last());
        assert(ps[ps.len() - 1] != ".."@);
        assert(ps.drop_last().push(ps.last()) =~= ps);
    }
}

/// A step back takes away the part before it; a path without steps back keeps all of its parts.
pub proof fn law_steps_back_take_parts_away(
    before: Seq<Seq<char>>,
    part: Seq<char>,
    ps: &Vec<String>,
    r: Vec<String>,
)
    requires
        call_ensures(normalize_parts, (ps,), r),
    ensures
        views(ps@) == before.push(part).push(".."@) && part != ".."@ ==> views(r@) == folded(before),
        (forall|i: int| 0 <= i < ps@.len() ==> (#[trigger] ps@[i])@ != ".."@) ==> views(r@) == views(
            ps@,
        ),
        views(ps@) == before.push(part) && part != ".."@ ==> views(r@) == folded(before).push(part),
{
    if views(ps@) == before.push(part).push(".."@) && part != ".."@ {
        assert(before.push(part).push(".."@).drop_last() =~= before.push(part));
        assert(before.push(part).drop_last() =~= before);
        assert(folded(before.push(part)) == folded(before).push(part));
        assert(folded(before).push(part).drop_last() =~= folded(before));
    }
    if views(ps@) == before.push(part) && part != ".."@ {
        assert(before.push(part).drop_last() =~= before);
    }
    if forall|i: int| 0 <= i < ps@.len() ==> (#[trigger] ps@[i])@ != ".."@ {
        assert forall|i: int| 0 <= i < views(ps@).len() implies #[trigger] views(ps@)[i] != ".."@ by {
            assert(views(ps@)[i] == ps@[i]@);
        }
        lemma_folded_without_steps_back(views(ps@));
    }
}

/// A path begins with a directory if it has each of its parts, in its place.
pub proof fn law_paths_begin_with_all_parts_of_the_directory(
    ps: &Vec<String>,
    dir: &Vec<String>,
    r: bool,
)
    requires
        call_ensures(parts_begin_with, (ps, dir), r),
    ensures
        r <==> dir@.len() <= ps@.len() && (forall|i: int|
            0 <= i < dir@.len() ==> (#[trigger] ps@[i])@ == dir@[i]@),
{
    let n = dir@.len() as int;
    if n <= ps@.len() {
        let a = views(ps@).take(n);
        let b = views(dir@);
        if a == b {
            assert forall|i: int| 0 <= i < n implies (#[trigger] ps@[i])@ == dir@[i]@ by {
                assert(a[i] == ps@[i]@ && b[i] == dir@[i]@);
            }
        }
        if forall|i: int| 0 <= i < n ==> (#[trigger] ps@[i])@ == dir@[i]@ {
            assert forall|i: int| 0 <= i < n implies a[i] == b[i] by {
                assert(ps@[i]@ == dir@[i]@);
            }
            assert(a =~= b);
        }
    }
}

/// A file is read only if it lies in the working directory: its path, with all links and steps back
/// worked out, has each part of the directory in its place. What is read is that path.
pub proof fn law_files_outside_are_not_read(
    working_dir: &str,
    file_path: &str,
    dir: String,
    found: &Option<String>,
    candidate: String,
    r: Result<String, CruiseError>,
    i: int,
)
    requires
        call_ensures(read_candidate, (working_dir, file_path, false), candidate),
        call_ensures(
            validate_read_file_path,
            (working_dir, file_path, &Ok::<String, String>(dir), found, false),
            r,
        ),
        0 <= i < parts(dir@, false).len(),
    ensures
        *found matches Some(path) ==> (r matches Ok(p) ==> p@ == path@ && i < parts(
            path@,
            false,
        ).len() && parts(path@, false)[i] == parts(dir@, false)[i]),
        *found is None && r is Ok ==> i < folded(parts(candidate@, false)).len() && folded(
            parts(candidate@, false),
        )[i] == parts(dir@, false)[i],
        *found matches Some(path) ==> (path@.len() > 0 && dir@.len() > 0 && (path@[0] == '/') != (
        dir@[0] == '/') ==> r is Err),
{
    let n = parts(dir@, false).len() as int;
    if r is Ok {
        if *found is Some {
            let ps = parts(found->0@, false);
            assert(ps.take(n)[i] == ps[i]);
        } else {
            let ps = folded(parts(candidate@, false));
            assert(ps.take(n)[i] == ps[i]);
        }
    }
}

/// A file of the working directory is read.
pub proof fn law_files_inside_are_read(
    working_dir: &str,
    file_path: &str,
    dir: String,
    rest: Seq<char>,
    path: String,
    r: Result<String, CruiseError>,
)
    requires
        dir@.len() > 0 && dir@[0] == '/',
        path@ == dir@ + seq!['/'] + rest,
        call_ensures(
            validate_read_file_path,
            (working_dir, file_path, &Ok::<String, String>(dir), &Some(path), false),
            r,
        ),
    ensures
        r matches Ok(p) && p@ == path@,
{
    let keep = |part: Seq<char>| is_part(part);
    lemma_parts(path@);
    lemma_parts(dir@);
    lemma_parts(rest);
    super::words::lemma_split_from(dir@, '/', rest, seq![]);
    Seq::filter_distributes_over_add(split(dir@, '/'), split(rest, '/'), keep);
    let n = parts(dir@, false).len() as int;
    assert(parts(path@, false) == parts(dir@, false) + parts(rest, false));
    assert(parts(path@, false).take(n) =~= parts(dir@, false));
    assert(path@[0] == dir@[0]);
    assert(with_slashes(path@.take(0), false) =~= with_slashes(dir@.take(0), false));
}

/// The directory for sessions is called `.cruise` and stands in the home directory.
pub proof fn law_sessions_stand_in_the_home_directory(home: Option<String>, r: Option<String>)
    requires
        call_ensures(cruise_home, (home, false), r),
    ensures
        r is Some <==> home is Some,
        home matches Some(h) ==> (h@.len() > 0 && h@.last() != '/' ==> opt_view(r) == Some(
            h@ + seq!['/'] + ".cruise"@,
        )),
{
    reveal_strlit("/");
    reveal_strlit(".cruise");
    assert(seq!['/'] =~= "/"@);
}

} // verus!
