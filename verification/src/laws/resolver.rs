//! Where the workflow is looked for, and what is said of where it was found.

use vstd::prelude::*;

use crate::error::CruiseError;
use crate::path::{is_absolute, is_absolute_path, join_path, joined_path, to_absolute};
use crate::resolver::{
    after_answer, after_choice, after_read, choose_user_file, file_to_read, first_place,
    has_config_extension, ConfigSource, FileRead, Place, Resolution, UserChoice,
    UserStep,
};
use crate::run_cmd::session_run::MenuAnswer;
use crate::step::option::lemma_first_index;
use crate::text::views;

verus! {

/// The path that was given comes before the environment, and the environment before the files of
/// the current directory, which are looked for from the first one on.
pub proof fn law_named_files_come_first(explicit: Option<&str>, env: Option<String>, r: Place)
    requires
        call_ensures(first_place, (explicit, env), r),
    ensures
        explicit matches Some(path) ==> (r matches Place::Explicit(p) && p@ == path@),
        explicit is None ==> (env matches Some(path) ==> (r matches Place::EnvVar(p) && p@
            == path@)),
        explicit is None && env is None ==> r == Place::Local(0),
{
}

/// What is read is the file that was named; in the current directory it is `cruise.yaml`,
/// `cruise.yml`, `.cruise.yaml` and `.cruise.yml`, in this order.
pub proof fn law_places_name_their_file(place: &Place, r: Option<String>)
    requires
        call_ensures(file_to_read, (place,), r),
    ensures
        place matches Place::Explicit(path) ==> (r matches Some(p) && p@ == path@),
        place matches Place::EnvVar(path) ==> (r matches Some(p) && p@ == path@),
        place matches Place::UserFile(path) ==> (r matches Some(p) && p@ == path@),
        *place == Place::Local(0) ==> (r matches Some(p) && p@ == "cruise.yaml"@),
        *place == Place::Local(1) ==> (r matches Some(p) && p@ == "cruise.yml"@),
        *place == Place::Local(2) ==> (r matches Some(p) && p@ == ".cruise.yaml"@),
        *place == Place::Local(3) ==> (r matches Some(p) && p@ == ".cruise.yml"@),
        *place is UserDir ==> r is None,
{
}

/// A file that was found is said to come from where it was looked for, and its text is handed on.
/// Its path is absolute: a path that is not leads from the current directory. A file of the user's
/// own directory keeps the path by which it was chosen.
pub proof fn law_found_files_are_known_by_their_absolute_path(
    place: Place,
    text: String,
    cwd: &str,
    windows: bool,
    named: Option<String>,
    r: Result<Resolution, CruiseError>,
)
    requires
        !(place is UserDir),
        call_ensures(file_to_read, (&place,), named),
        call_ensures(after_read, (place, FileRead::Text(text), Some(cwd), windows), r),
    ensures
        named matches Some(path) && r matches Ok(Resolution::Found(yaml, source)) && yaml == text
            && (source.path_spec() matches Some(p) && {
            &&& place is Explicit <==> source is Explicit
            &&& place is EnvVar <==> source is EnvVar
            &&& place is Local <==> source is Local
            &&& place is UserFile <==> source is UserDir
            &&& place is UserFile || is_absolute_path(path@, windows) ==> p@ == path@
            &&& !(place is UserFile) && !is_absolute_path(path@, windows) ==> p@ == join_path(
                cwd@,
                path@,
                windows,
            )
        }),
{
}

/// On a system with slashes the path of a file that was found begins with a slash, whatever the
/// path that was given, if that of the current directory does.
pub proof fn law_found_files_do_not_depend_on_the_current_directory(
    place: Place,
    text: String,
    cwd: &str,
    r: Result<Resolution, CruiseError>,
)
    requires
        place is Explicit || place is EnvVar || place is Local,
        cwd@.len() > 0 && cwd@[0] == '/',
        call_ensures(after_read, (place, FileRead::Text(text), Some(cwd), false), r),
    ensures
        r matches Ok(Resolution::Found(yaml, source)) && (source.path_spec() matches Some(p)
            && p@.len() > 0 && p@[0] == '/'),
{
    reveal_strlit("/");
}

/// A path that is not absolute follows the current directory, with one separator between them; an
/// absolute one is kept, and so is any where there is no current directory.
pub proof fn law_relative_paths_follow_the_directory(path: &str, cwd: Option<&str>, r: String)
    requires
        call_ensures(to_absolute, (path, cwd, false), r),
    ensures
        path@.len() > 0 && path@[0] == '/' ==> r@ == path@,
        cwd is None ==> r@ == path@,
        !(path@.len() > 0 && path@[0] == '/') ==> (cwd matches Some(dir) ==> {
            &&& dir@.len() > 0 && dir@.last() != '/' ==> r@ == dir@ + seq!['/'] + path@
            &&& dir@.len() > 0 && dir@.last() == '/' ==> r@ == dir@ + path@
            &&& dir@.len() == 0 ==> r@ == path@
        }),
{
    reveal_strlit("/");
    if cwd is Some {
        assert(seq!['/'] =~= "/"@);
        assert(cwd->0@.take(0) + path@ =~= path@);
        assert(Seq::<char>::empty() + path@ =~= path@);
        if cwd->0@.len() == 0 {
            assert(cwd->0@ + path@ =~= path@);
        }
    }
}

/// A path that is joined to a directory follows it behind one separator, unless it is absolute.
pub proof fn law_paths_are_joined_by_one_separator(a: &str, b: &str, r: String)
    requires
        call_ensures(joined_path, (a, b, false), r),
    ensures
        b@.len() > 0 && b@[0] == '/' ==> r@ == b@,
        !(b@.len() > 0 && b@[0] == '/') && a@.len() > 0 && a@.last() != '/' ==> r@ == a@ + seq![
            '/',
        ] + b@,
        !(b@.len() > 0 && b@[0] == '/') && a@.len() > 0 && a@.last() == '/' ==> r@ == a@ + b@,
        a@.len() == 0 ==> r@ == b@,
{
    reveal_strlit("/");
    assert(seq!['/'] =~= "/"@);
    assert(a@.take(0) + b@ =~= b@);
    if a@.len() == 0 {
        assert(a@ + b@ =~= b@);
    }
}

/// A path is absolute if it begins at the root. With drives it also has to say of which one, or of
/// which share.
pub proof fn law_absolute_paths_begin_at_the_root(p: &str, slashes: bool, drives: bool)
    requires
        call_ensures(is_absolute, (p, false), slashes),
        call_ensures(is_absolute, (p, true), drives),
    ensures
        slashes <==> p@.len() > 0 && p@[0] == '/',
        p@.len() >= 3 && ('a' <= p@[0] <= 'z' || 'A' <= p@[0] <= 'Z') && p@[1] == ':' ==> (drives
            <==> p@[2] == '\\' || p@[2] == '/'),
        p@.len() > 0 && p@[0] != '\\' && p@[0] != '/' && !(p@.len() >= 2 && p@[1] == ':')
            ==> !drives,
        p@.len() == 1 ==> !drives,
        p@.len() >= 2 && (p@[0] == '\\' || p@[0] == '/') && p@[1] != '\\' && p@[1] != '/'
            ==> !drives || p@[1] == ':',
{
}

/// A file that was named and is missing is an error that says its name. Where one of the current
/// directory is missing the next one is looked for, and after the last one the user's own.
pub proof fn law_missing_files_are_errors_or_passed_over(
    place: Place,
    why: String,
    cwd: Option<&str>,
    windows: bool,
    r: Result<Resolution, CruiseError>,
)
    requires
        !(place is UserDir),
        call_ensures(after_read, (place, FileRead::NotFound(why), cwd, windows), r),
    ensures
        place matches Place::Explicit(path) ==> (r matches Err(CruiseError::ConfigNotFound(p))
            && p@ == path@),
        place matches Place::EnvVar(path) ==> (r matches Err(CruiseError::ConfigNotFound(p)) && p@
            == path@),
        place is UserFile ==> r is Err,
        place matches Place::Local(i) ==> (i < 3 ==> r == Ok::<Resolution, CruiseError>(
            Resolution::Look(Place::Local((i + 1) as usize)),
        )),
        place == Place::Local(3) ==> r == Ok::<Resolution, CruiseError>(
            Resolution::Look(Place::UserDir),
        ),
{
}

/// A file that could not be read for another reason is an error, wherever it was looked for.
pub proof fn law_unreadable_files_are_errors(
    place: Place,
    why: String,
    cwd: Option<&str>,
    windows: bool,
    named: Option<String>,
    r: Result<Resolution, CruiseError>,
)
    requires
        !(place is UserDir),
        call_ensures(file_to_read, (&place,), named),
        call_ensures(after_read, (place, FileRead::Failed(why), cwd, windows), r),
    ensures
        named matches Some(path) && (r matches Err(CruiseError::Other(m)) && m@
            == "failed to read '"@ + path@ + "': "@ + why@),
{
}

/// One file in the user's own directory is taken, several are asked about, and without any the
/// workflow that is built in is used.
pub proof fn law_the_user_is_asked_only_where_there_is_a_choice(
    dir: Option<&str>,
    names: &Vec<String>,
    builtin: &str,
    choice: UserChoice,
    r: UserStep,
)
    requires
        call_ensures(choose_user_file, (dir, names, false), choice),
        call_ensures(after_choice, (choice, builtin), r),
    ensures
        dir is None || names@.len() == 0 ==> (r matches UserStep::Resolved(
            Resolution::Found(text, ConfigSource::Builtin),
        ) && text@ == builtin@),
        dir matches Some(d) ==> (names@.len() == 1 && d@.len() > 0 && d@.last() != '/'
            && names@[0]@.len() > 0 && names@[0]@[0] != '/' ==> (r matches UserStep::Resolved(
            Resolution::Look(Place::UserFile(path)),
        ) && path@ == d@ + seq!['/'] + names@[0]@)),
        dir is Some && names@.len() > 1 ==> (r matches UserStep::Ask(shown) && shown@ == names@),
{
    reveal_strlit("/");
    assert(seq!['/'] =~= "/"@);
}

/// The file that the user chose is looked for in the directory from which it was offered. A name
/// that was not offered, and a choice that was cancelled, are errors.
pub proof fn law_the_chosen_file_is_read(
    dir: &str,
    names: &Vec<String>,
    answer: &MenuAnswer,
    windows: bool,
    r: Result<Resolution, CruiseError>,
)
    requires
        call_ensures(after_answer, (dir, names, answer, windows), r),
    ensures
        r is Ok <==> (answer matches MenuAnswer::Chosen(name) && exists|i: int|
            0 <= i < names@.len() && #[trigger] names@[i]@ == name@),
        answer matches MenuAnswer::Chosen(name) ==> (r matches Ok(found) ==> (
        found matches Resolution::Look(Place::UserFile(path)) && path@ == join_path(
            dir@,
            name@,
            windows,
        ))),
{
    if *answer is Chosen {
        let name = answer->Chosen_0@;
        lemma_first_index(views(names@), name);
        assert forall|i: int| 0 <= i < names@.len() implies #[trigger] names@[i]@ == views(
            names@,
        )[i] by {}
        if exists|i: int| 0 <= i < names@.len() && #[trigger] names@[i]@ == name {
            let i = choose|i: int| 0 <= i < names@.len() && #[trigger] names@[i]@ == name;
            assert(views(names@)[i] == name);
        }
        let k = crate::step::option::first_index(views(names@), name);
        if k < names@.len() {
            assert(names@[k]@ == views(names@)[k]);
        }
    }
}

/// A workflow in the user's own directory is a file whose name ends in `.yaml` or `.yml`, with
/// something before it.
pub proof fn law_workflows_are_known_by_their_ending(stem: Seq<char>, name: &str, r: bool)
    requires
        call_ensures(has_config_extension, (name,), r),
    ensures
        name@ == stem + ".yaml"@ || name@ == stem + ".yml"@ ==> (r <==> stem.len() > 0),
        r ==> name@.len() > 4 && name@.last() == 'l',
        r ==> name@[name@.len() - 4] == '.' || name@[name@.len() - 5] == '.',
{
    reveal_strlit(".yaml");
    reveal_strlit(".yml");
    let n = name@.len() as int;
    if name@ == stem + ".yaml"@ {
        assert(name@.subrange(n - 5, n) =~= ".yaml"@);
        if n >= 4 && name@.subrange(n - 4, n) == ".yml"@ {
            assert(name@.subrange(n - 4, n)[0] == 'y');
        }
    }
    if name@ == stem + ".yml"@ {
        assert(name@.subrange(n - 4, n) =~= ".yml"@);
        if n >= 5 && name@.subrange(n - 5, n) == ".yaml"@ {
            assert(name@.subrange(n - 5, n)[1] == '.');
        }
    }
    if r {
        if n > 4 && name@.subrange(n - 4, n) == ".yml"@ {
            assert(name@[n - 4] == name@.subrange(n - 4, n)[0]);
            assert(name@[n - 1] == name@.subrange(n - 4, n)[3]);
        } else {
            assert(name@[n - 5] == name@.subrange(n - 5, n)[0]);
            assert(name@[n - 1] == name@.subrange(n - 5, n)[4]);
        }
    }
}

} // verus!
