//! Finding the workflow configuration.

use vstd::prelude::*;

use crate::error::CruiseError;
use crate::path::{absolute, join_path, joined_path, to_absolute};
use crate::run_cmd::session_run::MenuAnswer;
use crate::step::option::{first_index, position_of};
use crate::text::{
    chars_of, clone_strings, ends, ends_with, in_order, in_order_of, opt_str_view, opt_view, text_lt,
    views,
};

verus! {

/// Indicates where the resolved config came from.
#[derive(Debug, Clone)]
pub enum ConfigSource {
    /// Explicitly specified via `-c`.
    Explicit(String),
    /// Specified via the `CRUISE_CONFIG` environment variable.
    EnvVar(String),
    /// Found `cruise.yaml` or `cruise.yml` in the current directory.
    Local(String),
    /// Selected from `~/.cruise/`.
    UserDir(String),
    /// No file found; using the built-in default.
    Builtin,
}

impl ConfigSource {
    /// The path of the configuration file, or `None` for the built-in default.
    pub open spec fn path_spec(self) -> Option<String> {
        match self {
            ConfigSource::Explicit(p) => Some(p),
            ConfigSource::EnvVar(p) => Some(p),
            ConfigSource::Local(p) => Some(p),
            ConfigSource::UserDir(p) => Some(p),
            ConfigSource::Builtin => None,
        }
    }

    /// The source as it is shown.
    pub open spec fn display_spec(self) -> Seq<char> {
        match self.path_spec() {
            Some(p) => "config: "@ + p@,
            None => "config: (builtin default)"@,
        }
    }

    /// The source as it is shown.
    pub fn display_string(&self) -> (r: String)
        ensures
            r@ == self.display_spec(),
    {
        match self.path() {
            Some(p) => "config: ".to_owned().concat(p.as_str()),
            None => "config: (builtin default)".to_owned(),
        }
    }

    /// Returns the path to the config file, or `None` for the built-in default.
    pub fn path(&self) -> (r: Option<&String>)
        ensures
            match r {
                Some(p) => self.path_spec() == Some(*p),
                None => self.path_spec() is None,
            },
    {
        match self {
            ConfigSource::Explicit(p) => Some(p),
            ConfigSource::EnvVar(p) => Some(p),
            ConfigSource::Local(p) => Some(p),
            ConfigSource::UserDir(p) => Some(p),
            ConfigSource::Builtin => None,
        }
    }
}

// ---------------------------------------------------------------------------
// The order of places
// ---------------------------------------------------------------------------

/// A place where the configuration is looked for.
#[derive(Debug)]
pub enum Place {
    /// The file given with `-c`.
    Explicit(String),
    /// The file given in the environment.
    EnvVar(String),
    /// The local file with this number.
    Local(usize),
    /// The files in the user's directory.
    UserDir,
    /// A file in the user's directory.
    UserFile(String),
}

/// What became of reading a file.
#[derive(Debug)]
pub enum FileRead {
    Text(String),
    /// There is no such file; the text is the system's message.
    NotFound(String),
    /// The file could not be read, for this reason.
    Failed(String),
}

/// What follows from what was found at a place.
#[derive(Debug)]
pub enum Resolution {
    /// The configuration and where it comes from.
    Found(String, ConfigSource),
    /// It is looked for at the next place.
    Look(Place),
}

/// The number of local files that are tried.
pub const LOCAL_NAMES: usize = 4;

/// The names of the local files, visible ones first.
pub open spec fn local_name(i: int) -> Seq<char> {
    if i == 0 {
        "cruise.yaml"@
    } else if i == 1 {
        "cruise.yml"@
    } else if i == 2 {
        ".cruise.yaml"@
    } else {
        ".cruise.yml"@
    }
}

fn local_file(i: usize) -> (r: &'static str)
    ensures
        r@ == local_name(i as int),
{
    if i == 0 {
        "cruise.yaml"
    } else if i == 1 {
        "cruise.yml"
    } else if i == 2 {
        ".cruise.yaml"
    } else {
        ".cruise.yml"
    }
}

/// The place to look at first: the file given with `-c`, or else that given in the environment,
/// or else the first local one.
pub fn first_place(explicit: Option<&str>, env: Option<String>) -> (r: Place)
    ensures
        match explicit {
            Some(path) => r matches Place::Explicit(p) && p@ == path@,
            None => match env {
                Some(path) => r == Place::EnvVar(path),
                None => r == Place::Local(0),
            },
        },
{
    match explicit {
        Some(path) => Place::Explicit(path.to_owned()),
        None => match env {
            Some(path) => Place::EnvVar(path),
            None => Place::Local(0),
        },
    }
}

/// The file to read at a place.
pub open spec fn file_at(place: Place) -> Option<Seq<char>> {
    match place {
        Place::Explicit(path) => Some(path@),
        Place::EnvVar(path) => Some(path@),
        Place::Local(i) => Some(local_name(i as int)),
        Place::UserDir => None,
        Place::UserFile(path) => Some(path@),
    }
}

/// The file to read at a place. The user's directory is no file.
pub fn file_to_read(place: &Place) -> (r: Option<String>)
    ensures
        opt_view(r) == file_at(*place),
{
    match place {
        Place::Explicit(path) => Some(path.clone()),
        Place::EnvVar(path) => Some(path.clone()),
        Place::Local(i) => Some(local_file(*i).to_owned()),
        Place::UserDir => None,
        Place::UserFile(path) => Some(path.clone()),
    }
}

/// The place after the local file with the given number.
pub open spec fn place_after(i: int) -> Place {
    if i + 1 < LOCAL_NAMES {
        Place::Local((i + 1) as usize)
    } else {
        Place::UserDir
    }
}

/// `source` is what a file at `place` is called, seen from the directory `cwd`.
pub open spec fn is_source(
    place: Place,
    cwd: Option<Seq<char>>,
    windows: bool,
    source: ConfigSource,
) -> bool {
    match place {
        Place::Explicit(path) => source matches ConfigSource::Explicit(p) && p@ == absolute(
            path@,
            cwd,
            windows,
        ),
        Place::EnvVar(path) => source matches ConfigSource::EnvVar(p) && p@ == absolute(
            path@,
            cwd,
            windows,
        ),
        Place::Local(i) => source matches ConfigSource::Local(p) && p@ == absolute(
            local_name(i as int),
            cwd,
            windows,
        ),
        Place::UserFile(path) => source == ConfigSource::UserDir(path),
        Place::UserDir => false,
    }
}

/// `r` is what follows from reading the file at a place. A file that was asked for has to exist; a
/// local one need not.
pub open spec fn follows_read(
    place: Place,
    read: FileRead,
    cwd: Option<Seq<char>>,
    windows: bool,
    r: Result<Resolution, CruiseError>,
) -> bool {
    match read {
        FileRead::Text(yaml) => r matches Ok(Resolution::Found(text, source)) && text == yaml
            && is_source(place, cwd, windows, source),
        FileRead::NotFound(e) => match place {
            Place::Explicit(path) => r == Err::<Resolution, CruiseError>(
                CruiseError::ConfigNotFound(path),
            ),
            Place::EnvVar(path) => r == Err::<Resolution, CruiseError>(
                CruiseError::ConfigNotFound(path),
            ),
            Place::Local(i) => r == Ok::<Resolution, CruiseError>(
                Resolution::Look(place_after(i as int)),
            ),
            _ => r matches Err(CruiseError::Other(m)) && m@ == "failed to read '"@ + file_at(
                place,
            )->0 + "': "@ + e@,
        },
        FileRead::Failed(e) => r matches Err(CruiseError::Other(m)) && m@ == "failed to read '"@
            + file_at(place)->0 + "': "@ + e@,
    }
}

/// What follows from reading the file at a place, seen from the directory `cwd` if that is known.
/// A file that was asked for has to exist; a local one need not.
///
/// # Errors
///
/// Returns `ConfigNotFound` if a file that was asked for does not exist, and `Other` if a file
/// could not be read.
pub fn after_read(place: Place, read: FileRead, cwd: Option<&str>, windows: bool) -> (r: Result<
    Resolution,
    CruiseError,
>)
    requires
        !(place is UserDir),
        place matches Place::Local(i) ==> i < LOCAL_NAMES,
    ensures
        follows_read(place, read, opt_str_view(cwd), windows, r),
{
    match read {
        FileRead::Text(yaml) => {
            let source: ConfigSource = match place {
                Place::Explicit(path) => ConfigSource::Explicit(
                    to_absolute(path.as_str(), cwd, windows),
                ),
                Place::EnvVar(path) => ConfigSource::EnvVar(
                    to_absolute(path.as_str(), cwd, windows),
                ),
                Place::Local(i) => ConfigSource::Local(to_absolute(local_file(i), cwd, windows)),
                Place::UserFile(path) => ConfigSource::UserDir(path),
                Place::UserDir => ConfigSource::Builtin,
            };
            Ok(Resolution::Found(yaml, source))
        },
        FileRead::NotFound(e) => match place {
            Place::Explicit(path) => Err(CruiseError::ConfigNotFound(path)),
            Place::EnvVar(path) => Err(CruiseError::ConfigNotFound(path)),
            Place::Local(i) => if i + 1 < LOCAL_NAMES {
                Ok(Resolution::Look(Place::Local(i + 1)))
            } else {
                Ok(Resolution::Look(Place::UserDir))
            },
            place => Err(unreadable(&place, e.as_str())),
        },
        FileRead::Failed(e) => Err(unreadable(&place, e.as_str())),
    }
}

fn unreadable(place: &Place, reason: &str) -> (r: CruiseError)
    requires
        !(place is UserDir),
    ensures
        r matches CruiseError::Other(m) && m@ == "failed to read '"@ + file_at(*place)->0 + "': "@
            + reason@,
{
    let path: String = match file_to_read(place) {
        Some(path) => path,
        None => String::new(),
    };
    CruiseError::Other(
        "failed to read '".to_owned().concat(path.as_str()).concat("': ").concat(reason),
    )
}

// ---------------------------------------------------------------------------
// The user's directory
// ---------------------------------------------------------------------------

/// An entry of a directory.
#[derive(Debug)]
pub struct DirEntry {
    pub name: String,
    /// Whether it is a file.
    pub is_file: bool,
}

/// A file name with the extension of a configuration. A name that is nothing but the extension
/// has none.
pub open spec fn is_config_name(name: Seq<char>) -> bool {
    ||| ends_with(name, ".yaml"@) && name.len() > 5
    ||| ends_with(name, ".yml"@) && name.len() > 4
}

/// An entry that is a configuration.
pub open spec fn is_config_entry(e: DirEntry) -> bool {
    e.is_file && is_config_name(e.name@)
}

/// The names of the configurations among the entries, in their order.
pub open spec fn config_names(entries: Seq<DirEntry>) -> Seq<Seq<char>> {
    entries.filter(|e: DirEntry| is_config_entry(e)).map_values(|e: DirEntry| e.name@)
}

/// Whether a file name has the extension of a configuration.
pub fn has_config_extension(name: &str) -> (r: bool)
    ensures
        r == is_config_name(name@),
{
    let n: usize = chars_of(name).len();
    ends(name, ".yaml") && n > 5 || ends(name, ".yml") && n > 4
}

/// Collects the names of the files with the extension `yaml` or `yml` among the entries of a
/// directory, sorted by name.
pub fn collect_yaml_files(entries: &Vec<DirEntry>) -> (r: Vec<String>)
    ensures
        views(r@) == in_order(config_names(entries@)),
        forall|i: int, j: int|
            0 <= i < j < r@.len() ==> !text_lt(#[trigger] r@[j]@, #[trigger] r@[i]@),
{
    let mut names: Vec<String> = Vec::new();
    let mut i: usize = 0;
    let ghost keep = |e: DirEntry| is_config_entry(e);
    assert(views(names@) =~= config_names(entries@.take(0))) by {
        reveal(Seq::filter);
    }
    while i < entries.len()
        invariant
            i <= entries@.len(),
            keep == (|e: DirEntry| is_config_entry(e)),
            views(names@) == config_names(entries@.take(i as int)),
        decreases entries@.len() - i,
    {
        let e = &entries[i];
        let ghost before = entries@.take(i as int);
        proof {
            reveal(Seq::filter);
            assert(entries@.take(i + 1).drop_last() =~= before);
        }
        if e.is_file && has_config_extension(e.name.as_str()) {
            let ghost old_names = names@;
            names.push(e.name.clone());
            assert(views(names@) =~= views(old_names).push(e.name@));
            assert(config_names(entries@.take(i + 1)) =~= config_names(before).push(e.name@));
        } else {
            assert(config_names(entries@.take(i + 1)) =~= config_names(before));
        }
        i += 1;
    }
    assert(entries@.take(i as int) =~= entries@);
    in_order_of(&names)
}

/// How a file of the user's directory is chosen.
#[derive(Debug)]
pub enum UserChoice {
    /// There is none: the built-in default is used.
    Nothing,
    /// There is only one.
    Only(String),
    /// The user chooses one of these names.
    Ask(Vec<String>),
}

/// `r` is how a file of the user's directory is chosen, given the names of all in it. There is no
/// file where there is no directory.
pub open spec fn is_user_choice(
    dir: Option<Seq<char>>,
    names: Seq<String>,
    windows: bool,
    r: UserChoice,
) -> bool {
    if dir is None || names.len() == 0 {
        r == UserChoice::Nothing
    } else if names.len() == 1 {
        r matches UserChoice::Only(path) && path@ == join_path(dir->0, names[0]@, windows)
    } else {
        r matches UserChoice::Ask(shown) && shown@ == names
    }
}

/// How a file of the user's directory is chosen, given the names of all: a single one is taken.
pub fn choose_user_file(dir: Option<&str>, names: &Vec<String>, windows: bool) -> (r: UserChoice)
    ensures
        is_user_choice(opt_str_view(dir), names@, windows, r),
{
    match dir {
        None => UserChoice::Nothing,
        Some(dir) => if names.len() == 0 {
            UserChoice::Nothing
        } else if names.len() == 1 {
            UserChoice::Only(joined_path(dir, names[0].as_str(), windows))
        } else {
            UserChoice::Ask(clone_strings(names))
        },
    }
}

/// What follows in the user's directory.
#[derive(Debug)]
pub enum UserStep {
    /// This follows from what was found.
    Resolved(Resolution),
    /// The user chooses one of these names.
    Ask(Vec<String>),
}

/// `r` is what follows from the choice: without a file, the built-in default is the configuration.
pub open spec fn follows_choice(choice: UserChoice, builtin: Seq<char>, r: UserStep) -> bool {
    match choice {
        UserChoice::Nothing => r matches UserStep::Resolved(
            Resolution::Found(text, ConfigSource::Builtin),
        ) && text@ == builtin,
        UserChoice::Only(path) => r == UserStep::Resolved(
            Resolution::Look(Place::UserFile(path)),
        ),
        UserChoice::Ask(names) => r == UserStep::Ask(names),
    }
}

/// What follows from how a file of the user's directory is chosen. `builtin` is the text of the
/// built-in default.
pub fn after_choice(choice: UserChoice, builtin: &str) -> (r: UserStep)
    ensures
        follows_choice(choice, builtin@, r),
{
    match choice {
        UserChoice::Nothing => UserStep::Resolved(
            Resolution::Found(builtin.to_owned(), ConfigSource::Builtin),
        ),
        UserChoice::Only(path) => UserStep::Resolved(Resolution::Look(Place::UserFile(path))),
        UserChoice::Ask(names) => UserStep::Ask(names),
    }
}

/// What follows from the user's answer: the file that they chose is read.
///
/// # Errors
///
/// Returns the error of [`prompt_select_config`].
pub fn after_answer(dir: &str, names: &Vec<String>, answer: &MenuAnswer, windows: bool) -> (r:
    Result<Resolution, CruiseError>)
    ensures
        match r {
            Ok(resolution) => resolution matches Resolution::Look(Place::UserFile(path))
                && is_selection(dir@, views(names@), *answer, windows, Ok(path)),
            Err(e) => is_selection(dir@, views(names@), *answer, windows, Err(e)),
        },
{
    match prompt_select_config(dir, names, answer, windows) {
        Ok(path) => Ok(Resolution::Look(Place::UserFile(path))),
        Err(e) => Err(e),
    }
}

/// `r` is the file that the user chose, or the reason why there is none.
pub open spec fn is_selection(
    dir: Seq<char>,
    names: Seq<Seq<char>>,
    answer: MenuAnswer,
    windows: bool,
    r: Result<String, CruiseError>,
) -> bool {
    match answer {
        MenuAnswer::Chosen(name) => if first_index(names, name@) < names.len() {
            r matches Ok(path) && path@ == join_path(dir, name@, windows)
        } else {
            r matches Err(CruiseError::Other(m)) && m@ == "selected config not found: "@ + name@
        },
        MenuAnswer::Cancelled => r matches Err(CruiseError::Other(m)) && m@
            == "config selection cancelled"@,
        MenuAnswer::Failed(e) => r == Err::<String, CruiseError>(CruiseError::Other(e)),
    }
}

/// The file of the user's directory that the user chose.
///
/// # Errors
///
/// Returns `Other` if the user left the menu, if it could not be shown, or if there is no such
/// file.
pub fn prompt_select_config(
    dir: &str,
    names: &Vec<String>,
    answer: &MenuAnswer,
    windows: bool,
) -> (r: Result<String, CruiseError>)
    ensures
        is_selection(dir@, views(names@), *answer, windows, r),
{
    assert(views(names@).len() == names@.len());
    match answer {
        MenuAnswer::Chosen(name) => match position_of(names, name.as_str()) {
            Some(i) => {
                proof {
                    crate::step::option::lemma_first_index(views(names@), name@);
                }
                assert(views(names@)[i as int] == names@[i as int]@);
                Ok(joined_path(dir, names[i].as_str(), windows))
            },
            None => Err(
                CruiseError::Other("selected config not found: ".to_owned().concat(name.as_str())),
            ),
        },
        MenuAnswer::Cancelled => Err(CruiseError::Other("config selection cancelled".to_owned())),
        MenuAnswer::Failed(e) => Err(CruiseError::Other(e.clone())),
    }
}

// ---------------------------------------------------------------------------
// Laws
// ---------------------------------------------------------------------------

/// How many places are left to look at.
pub open spec fn places_left(place: Place) -> int {
    match place {
        Place::Explicit(_) => 1,
        Place::EnvVar(_) => 1,
        Place::Local(i) => 6 - i,
        Place::UserDir => 2,
        Place::UserFile(_) => 1,
    }
}

/// The local files are tried one after the other, visible ones first, and the user's directory
/// after them: each file that does not exist leaves fewer places.
pub proof fn law_local_files_come_in_turn(i: int)
    requires
        0 <= i < LOCAL_NAMES,
    ensures
        places_left(place_after(i)) < places_left(Place::Local(i as usize)),
        i < LOCAL_NAMES - 1 ==> place_after(i) == Place::Local((i + 1) as usize),
        i == LOCAL_NAMES - 1 ==> place_after(i) == Place::UserDir,
{
}

/// A file that was asked for is never replaced by another one.
pub proof fn law_named_files_have_no_substitute(
    place: Place,
    read: FileRead,
    cwd: Option<Seq<char>>,
    windows: bool,
    r: Result<Resolution, CruiseError>,
)
    requires
        place is Explicit || place is EnvVar,
        follows_read(place, read, cwd, windows, r),
    ensures
        r is Err || (r matches Ok(Resolution::Found(text, source)) && read == FileRead::Text(text)
            && is_source(place, cwd, windows, source)),
{
}

/// Where no local file exists and the user's directory holds none, or is not known, the built-in
/// default is the configuration.
pub proof fn law_builtin_is_the_last_resort(
    reads: Seq<FileRead>,
    found: Seq<Result<Resolution, CruiseError>>,
    cwd: Option<Seq<char>>,
    windows: bool,
    dir: Option<Seq<char>>,
    names: Seq<String>,
    choice: UserChoice,
    builtin: Seq<char>,
    r: UserStep,
)
    requires
        reads.len() == LOCAL_NAMES && found.len() == LOCAL_NAMES,
        forall|i: int|
            0 <= i < LOCAL_NAMES ==> (#[trigger] reads[i]) is NotFound && follows_read(
                Place::Local(i as usize),
                reads[i],
                cwd,
                windows,
                found[i],
            ),
        dir is None || names.len() == 0,
        is_user_choice(dir, names, windows, choice),
        follows_choice(choice, builtin, r),
    ensures
        forall|i: int|
            0 <= i < LOCAL_NAMES - 1 ==> #[trigger] found[i] == Ok::<Resolution, CruiseError>(
                Resolution::Look(Place::Local((i + 1) as usize)),
            ),
        found[LOCAL_NAMES - 1] == Ok::<Resolution, CruiseError>(Resolution::Look(Place::UserDir)),
        r matches UserStep::Resolved(Resolution::Found(text, ConfigSource::Builtin)) && text@
            == builtin,
{
    assert forall|i: int| 0 <= i < LOCAL_NAMES implies #[trigger] found[i] == Ok::<
        Resolution,
        CruiseError,
    >(Resolution::Look(place_after(i))) by {
        assert(reads[i] is NotFound);
    }
}

} // verus!
