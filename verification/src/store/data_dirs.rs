//! Where everything is kept on disk.

use std::path::PathBuf;

use vstd::prelude::*;
use vstd::string::*;

use crate::path;
use crate::persistence::error::{PersistenceError, PersistenceErrorView};

verus! {

/// Whether `dir` is named after `application`: it is called that, or is the `data`
/// directory (on Windows) of a directory called that. Its bytes end accordingly,
/// and so do its components where it does not begin with two separators.
pub open spec fn named_after(dir: PathBuf, application: Seq<char>) -> bool {
    let name = path::bytes_of(application);
    let parts = path::parts(dir);
    &&& {
        ||| path::ends(path::raw(dir), name)
        ||| path::ends(path::raw(dir), name + path::bytes_of("\\data"@))
    }
    &&& path::is_ordinary(path::raw(dir)) ==> {
        ||| parts.len() >= 1 && parts.last() == name
        ||| parts.len() >= 2 && parts.last() == path::bytes_of("data"@) && parts[parts.len() - 2]
            == name
    }
}

/// Calls `directories::ProjectDirs::from` and takes the data directory out of what
/// it returns. Whether there is one, and what it lies in, depends on the system
/// and the user's environment, and is left unsaid. Where there is one, and neither
/// a qualifier nor an organization is given, its path ends in a plain application
/// name, followed on Windows by `data`. These are components of their own where
/// the path does not begin with two separators.
#[verifier::external_body]
fn platform_data_dir(qualifier: &str, organization: &str, application: &str) -> (res: Option<
    PathBuf,
>)
    ensures
        res matches Some(dir) ==> qualifier@.len() == 0 && organization@.len() == 0 && path::is_plain(
            application@,
        ) ==> named_after(dir, application@),
{
    directories::ProjectDirs::from(qualifier, organization, application).map(
        |dirs| dirs.data_dir().to_path_buf(),
    )
}

/// Whether `dir` is an answer that the system can give when it is asked for the
/// data directory of `application`, without a qualifier and an organization.
pub closed spec fn names_data_dir(application: &str, dir: Option<PathBuf>) -> bool {
    call_ensures(platform_data_dir, ("", "", application), dir)
}

// ---------------------------------------------------------------------------
// Places
// ---------------------------------------------------------------------------

/// The places below one root directory.
#[derive(Debug, PartialEq, Eq)]
pub struct DataDirs {
    root: PathBuf,
}

impl Clone for DataDirs {
    fn clone(&self) -> (res: Self)
        ensures
            res == *self,
    {
        Self { root: self.root.clone() }
    }
}

impl DataDirs {
    /// The root directory.
    pub closed spec fn location(self) -> PathBuf {
        self.root
    }

    /// The places below the directory that the system keeps data in, where it
    /// has one.
    pub fn from_platform(data_dir: Option<PathBuf>) -> (res: Result<Self, PersistenceError>)
        ensures
            match data_dir {
                Some(root) => res matches Ok(dirs) && dirs.location() == root,
                None => res matches Err(e) && e@ == PersistenceErrorView::IoError(
                    "could not resolve platform data directory for openspace_desktop"@,
                ),
            },
    {
        match data_dir {
            Some(root) => Ok(Self { root }),
            None => Err(
                PersistenceError::IoError(
                    "could not resolve platform data directory for openspace_desktop".to_owned(),
                ),
            ),
        }
    }

    /// The places below the directory that this system keeps the data of
    /// `openspace_desktop` in. Whether there is one, and what it lies in, is up to
    /// the system.
    pub fn resolve() -> (res: Result<Self, PersistenceError>)
        ensures
            exists|dir: Option<PathBuf>| #[trigger]
                names_data_dir("openspace_desktop", dir) && match dir {
                    Some(root) => res matches Ok(dirs) && dirs.location() == root,
                    None => res is Err,
                },
            match res {
                Ok(dirs) => named_after(dirs.location(), "openspace_desktop"@),
                Err(e) => e@ == PersistenceErrorView::IoError(
                    "could not resolve platform data directory for openspace_desktop"@,
                ),
            },
    {
        proof {
            reveal_strlit("");
            reveal_strlit("openspace_desktop");
        }
        let data_dir = platform_data_dir("", "", "openspace_desktop");
        assert(names_data_dir("openspace_desktop", data_dir));
        Self::from_platform(data_dir)
    }

    /// The places below the directory `root`.
    #[must_use]
    pub fn with_root(root: PathBuf) -> (res: Self)
        ensures
            res.location() == root,
    {
        Self { root }
    }

    /// The root directory.
    #[must_use]
    pub fn root(&self) -> (res: &PathBuf)
        ensures
            *res == self.location(),
    {
        &self.root
    }

    /// Whether the root does not begin with two separators. Below such a root each
    /// place is one component more than the root.
    #[must_use]
    pub fn has_ordinary_root(&self) -> (res: bool)
        ensures
            res == path::is_ordinary(path::raw(self.location())),
    {
        path::ordinary(&self.root)
    }

    /// The settings file.
    #[must_use]
    pub fn settings_toml(&self) -> (res: PathBuf)
        ensures
            path::joins(self.location(), "settings.toml", res),
            path::is_place(res, self.location(), "settings.toml"@),
    {
        proof {
            reveal_strlit("settings.toml");
        }
        path::joined(&self.root, "settings.toml")
    }

    /// The database.
    #[must_use]
    pub fn data_db(&self) -> (res: PathBuf)
        ensures
            path::joins(self.location(), "data.db", res),
            path::is_place(res, self.location(), "data.db"@),
    {
        proof {
            reveal_strlit("data.db");
        }
        path::joined(&self.root, "data.db")
    }

    /// The directory of themes.
    #[must_use]
    pub fn themes_dir(&self) -> (res: PathBuf)
        ensures
            path::joins(self.location(), "themes", res),
            path::is_place(res, self.location(), "themes"@),
    {
        proof {
            reveal_strlit("themes");
        }
        path::joined(&self.root, "themes")
    }

    /// The directory of logs.
    #[must_use]
    pub fn logs_dir(&self) -> (res: PathBuf)
        ensures
            path::joins(self.location(), "logs", res),
            path::is_place(res, self.location(), "logs"@),
    {
        proof {
            reveal_strlit("logs");
        }
        path::joined(&self.root, "logs")
    }

    /// The directory of caches.
    #[must_use]
    pub fn cache_dir(&self) -> (res: PathBuf)
        ensures
            path::joins(self.location(), "cache", res),
            path::is_place(res, self.location(), "cache"@),
    {
        proof {
            reveal_strlit("cache");
        }
        path::joined(&self.root, "cache")
    }
}

// ---------------------------------------------------------------------------
// Creating the directories
// ---------------------------------------------------------------------------

/// Whether `dir` is the `i`-th directory that has to exist in `root`, in the order
/// in which they are created. The files come into being when they are first
/// written.
pub open spec fn is_wanted(root: PathBuf, i: int, dir: PathBuf) -> bool {
    if i == 0 {
        path::joins(root, "themes", dir) && path::is_place(dir, root, "themes"@)
    } else if i == 1 {
        path::joins(root, "logs", dir) && path::is_place(dir, root, "logs"@)
    } else {
        i == 2 && path::joins(root, "cache", dir) && path::is_place(dir, root, "cache"@)
    }
}

/// The number of directories that are there after the next one was created, or
/// the error that ends the creation.
pub open spec fn following(made: nat, outcome: Result<(), String>) -> Result<
    nat,
    PersistenceErrorView,
> {
    match outcome {
        Ok(_) => Ok(made + 1),
        Err(err) => Err(PersistenceErrorView::IoError(err@)),
    }
}

/// The creation of the directories below a root.
#[derive(Debug)]
pub struct DirsCreation {
    dirs: DataDirs,
    made: usize,
}

impl DirsCreation {
    #[verifier::type_invariant]
    spec fn well_formed(self) -> bool {
        self.made <= 3
    }

    /// The places.
    pub closed spec fn places(self) -> DataDirs {
        self.dirs
    }

    /// The number of directories that are done with.
    pub closed spec fn done(self) -> nat {
        self.made as nat
    }

    /// The creation of the directories of `dirs`.
    pub fn new(dirs: DataDirs) -> (res: Self)
        ensures
            res.places() == dirs,
            res.done() == 0,
    {
        Self { dirs, made: 0 }
    }

    /// The directory to create next, with its parents, if one is left.
    #[must_use]
    pub fn next_directory(&self) -> (res: Option<PathBuf>)
        ensures
            self.done() <= 3,
            match res {
                Some(dir) => {
                    &&& self.done() < 3
                    &&& is_wanted(self.places().location(), self.done() as int, dir)
                },
                None => self.done() == 3,
            },
    {
        proof {
            use_type_invariant(&*self);
        }
        match self.made {
            0 => Some(self.dirs.themes_dir()),
            1 => Some(self.dirs.logs_dir()),
            2 => Some(self.dirs.cache_dir()),
            _ => None,
        }
    }

    /// Takes in how creating the next directory went. An error ends the creation.
    pub fn advance(&mut self, outcome: Result<(), String>) -> (res: Result<(), PersistenceError>)
        requires
            old(self).done() < 3,
        ensures
            final(self).places() == old(self).places(),
            match following(old(self).done(), outcome) {
                Ok(made) => res is Ok && final(self).done() == made,
                Err(e) => res matches Err(err) && err@ == e && final(self).done() == 3,
            },
    {
        match outcome {
            Ok(_) => {
                self.made = self.made + 1;
                Ok(())
            },
            Err(err) => {
                self.made = 3;
                Err(PersistenceError::IoError(err))
            },
        }
    }

    /// The places, out of their creation.
    #[must_use]
    pub fn into_dirs(self) -> (res: DataDirs)
        ensures
            res == self.places(),
    {
        self.dirs
    }
}

// ---------------------------------------------------------------------------
// Laws
// ---------------------------------------------------------------------------

/// The names of the five places are plain, and their ends tell them apart.
proof fn lemma_names()
    ensures
        path::is_plain("settings.toml"@) && path::bytes_of("settings.toml"@).len() == 13,
        path::is_plain("data.db"@) && path::bytes_of("data.db"@).len() == 7,
        path::is_plain("themes"@) && path::bytes_of("themes"@).len() == 6,
        path::is_plain("logs"@) && path::bytes_of("logs"@).len() == 4,
        path::is_plain("cache"@) && path::bytes_of("cache"@).len() == 5,
        path::bytes_of("settings.toml"@).last() == 0x6c,
        path::bytes_of("data.db"@).last() == 0x62,
        path::bytes_of("themes"@).last() == 0x73 && path::bytes_of("themes"@)[4] == 0x65,
        path::bytes_of("logs"@).last() == 0x73 && path::bytes_of("logs"@)[2] == 0x67,
        path::bytes_of("cache"@).last() == 0x65,
{
    reveal_strlit("settings.toml");
    reveal_strlit("data.db");
    reveal_strlit("themes");
    reveal_strlit("logs");
    reveal_strlit("cache");
}

/// The five places below one root differ from one another, whatever the root is.
pub proof fn law_places_differ(
    root: PathBuf,
    settings: PathBuf,
    database: PathBuf,
    themes: PathBuf,
    logs: PathBuf,
    cache: PathBuf,
)
    requires
        path::joins(root, "settings.toml", settings),
        path::joins(root, "data.db", database),
        path::joins(root, "themes", themes),
        path::joins(root, "logs", logs),
        path::joins(root, "cache", cache),
    ensures
        settings != database && settings != themes && settings != logs && settings != cache,
        database != themes && database != logs && database != cache,
        themes != logs && themes != cache && logs != cache,
{
    lemma_names();
    path::lemma_joins_is_place(root, "settings.toml", settings);
    path::lemma_joins_is_place(root, "data.db", database);
    path::lemma_joins_is_place(root, "themes", themes);
    path::lemma_joins_is_place(root, "logs", logs);
    path::lemma_joins_is_place(root, "cache", cache);
    lemma_last_byte(path::raw(settings), path::bytes_of("settings.toml"@));
    lemma_last_byte(path::raw(database), path::bytes_of("data.db"@));
    lemma_last_byte(path::raw(themes), path::bytes_of("themes"@));
    lemma_last_byte(path::raw(logs), path::bytes_of("logs"@));
    lemma_last_byte(path::raw(cache), path::bytes_of("cache"@));
    if themes == logs {
        let t = path::bytes_of("themes"@);
        let l = path::bytes_of("logs"@);
        path::lemma_ends_in_both(path::raw(themes), l, t);
        assert(t.skip(2)[2] == l[2]);
    }
}

/// Bytes that end in a tail have its last byte.
proof fn lemma_last_byte(bytes: Seq<u8>, tail: Seq<u8>)
    requires
        path::ends(bytes, tail),
        tail.len() > 0,
    ensures
        bytes.len() > 0,
        bytes.last() == tail.last(),
{
    assert(bytes.skip(bytes.len() - tail.len()).last() == tail.last());
}

/// The disk after a directory is created with its parents, which `above` gives.
pub open spec fn with_directory<D>(disk: Set<D>, dir: D, above: spec_fn(D) -> Set<D>) -> Set<D> {
    disk.union(above(dir)).insert(dir)
}

/// The disk after the directories from the `made`-th on are created, and how that
/// ends. `faults` says which cannot be created.
pub open spec fn created<D>(
    disk: Set<D>,
    dirs: Seq<D>,
    above: spec_fn(D) -> Set<D>,
    faults: spec_fn(D) -> Option<String>,
    made: nat,
) -> (Set<D>, Result<(), PersistenceErrorView>)
    decreases dirs.len() - made,
{
    if made >= dirs.len() {
        (disk, Ok(()))
    } else {
        let dir = dirs[made as int];
        let outcome = match faults(dir) {
            Some(err) => Err(err),
            None => Ok(()),
        };
        match following(made, outcome) {
            Err(e) => (disk, Err(e)),
            Ok(next) => created(with_directory(disk, dir, above), dirs, above, faults, made + 1),
        }
    }
}

/// Whether `dirs` are the directories that have to exist in `root`.
pub open spec fn are_wanted(root: PathBuf, dirs: Seq<PathBuf>) -> bool {
    &&& dirs.len() == 3
    &&& forall|i: int| 0 <= i < 3 ==> is_wanted(root, i, #[trigger] dirs[i])
}

/// Places that have the same root are the same.
pub proof fn law_one_root_has_one_set_of_places(a: DataDirs, b: DataDirs)
    requires
        a.location() == b.location(),
    ensures
        a == b,
{
}

/// Where every directory can be created, all three are there in the end, whatever
/// the root is. Beside them and what they lie in nothing comes into being. Doing it
/// again, with paths that lead to the same places, succeeds and changes nothing.
/// `place` says where on the disk a path leads.
pub proof fn law_creation_is_idempotent<D>(
    disk: Set<D>,
    root: PathBuf,
    dirs: Seq<PathBuf>,
    again: Seq<PathBuf>,
    place: spec_fn(PathBuf) -> D,
    above: spec_fn(D) -> Set<D>,
)
    requires
        are_wanted(root, dirs),
        are_wanted(root, again),
        forall|i: int| 0 <= i < 3 ==> place(#[trigger] again[i]) == place(dirs[i]),
    ensures
        ({
            let all_good = |dir: D| None::<String>;
            let end = created(disk, dirs.map_values(place), above, all_good, 0);
            &&& end.1 == Ok::<(), PersistenceErrorView>(())
            &&& forall|i: int| 0 <= i < 3 ==> end.0.contains(place(#[trigger] dirs[i]))
            &&& forall|d: D| #[trigger]
                end.0.contains(d) ==> disk.contains(d) || exists|i: int|
                    0 <= i < 3 && (d == place(#[trigger] dirs[i]) || above(place(dirs[i])).contains(
                        d,
                    ))
            &&& created(end.0, again.map_values(place), above, all_good, 0) == end
        }),
{
    let all_good = |dir: D| None::<String>;
    let places = dirs.map_values(place);
    assert(places =~= again.map_values(place));
    reveal_with_fuel(created, 4);
    let d1 = with_directory(disk, places[0], above);
    let d2 = with_directory(d1, places[1], above);
    let d3 = with_directory(d2, places[2], above);
    assert(created(disk, places, above, all_good, 0).0 == d3);
    assert(with_directory(d3, places[0], above) =~= d3);
    assert(with_directory(d3, places[1], above) =~= d3);
    assert(with_directory(d3, places[2], above) =~= d3);
    assert(place(dirs[0]) == places[0] && place(dirs[1]) == places[1] && place(dirs[2])
        == places[2]);
}

/// Neither the settings file nor the database comes into being with the
/// directories, whatever the root is, unless a directory lies in them.
pub proof fn law_creation_makes_no_file(
    disk: Set<PathBuf>,
    root: PathBuf,
    dirs: Seq<PathBuf>,
    above: spec_fn(PathBuf) -> Set<PathBuf>,
    file: PathBuf,
)
    requires
        are_wanted(root, dirs),
        path::joins(root, "settings.toml", file) || path::joins(root, "data.db", file),
        forall|i: int| 0 <= i < 3 ==> !above(#[trigger] dirs[i]).contains(file),
        !disk.contains(file),
    ensures
        !created(disk, dirs, above, |dir: PathBuf| None::<String>, 0).0.contains(file),
{
    let place = |path: PathBuf| path;
    assert(dirs.map_values(place) =~= dirs);
    law_creation_is_idempotent(disk, root, dirs, dirs, place, above);
    lemma_names();
    lemma_wanted(root, dirs);
    lemma_last_byte(path::raw(dirs[0]), path::bytes_of("themes"@));
    lemma_last_byte(path::raw(dirs[1]), path::bytes_of("logs"@));
    lemma_last_byte(path::raw(dirs[2]), path::bytes_of("cache"@));
    if path::joins(root, "settings.toml", file) {
        path::lemma_joins_is_place(root, "settings.toml", file);
        lemma_last_byte(path::raw(file), path::bytes_of("settings.toml"@));
    } else {
        path::lemma_joins_is_place(root, "data.db", file);
        lemma_last_byte(path::raw(file), path::bytes_of("data.db"@));
    }
    assert(file != dirs[0] && file != dirs[1] && file != dirs[2]);
}

/// The directories that have to exist are the places called `themes`, `logs` and
/// `cache`.
proof fn lemma_wanted(root: PathBuf, dirs: Seq<PathBuf>)
    requires
        are_wanted(root, dirs),
    ensures
        path::is_place(dirs[0], root, "themes"@),
        path::is_place(dirs[1], root, "logs"@),
        path::is_place(dirs[2], root, "cache"@),
{
    assert(is_wanted(root, 0, dirs[0]) && is_wanted(root, 1, dirs[1]));
    assert(is_wanted(root, 2, dirs[2]));
}

/// What a place lies in, by components, and the place itself.
pub open spec fn beginnings(dir: Seq<Seq<u8>>) -> Set<Seq<Seq<u8>>> {
    Set::new(|d: Seq<Seq<u8>>| d.is_prefix_of(dir))
}

/// Below an ordinary root, where a path leads by its components, creating the
/// directories twice does what creating them once does. Neither the settings file
/// nor the database comes into being.
pub proof fn law_creation_below_an_ordinary_root(
    disk: Set<Seq<Seq<u8>>>,
    root: PathBuf,
    dirs: Seq<PathBuf>,
    again: Seq<PathBuf>,
    file: PathBuf,
)
    requires
        path::is_ordinary(path::raw(root)),
        are_wanted(root, dirs),
        are_wanted(root, again),
        path::joins(root, "settings.toml", file) || path::joins(root, "data.db", file),
    ensures
        ({
            let place = |path: PathBuf| path::parts(path);
            let above = |dir: Seq<Seq<u8>>| beginnings(dir);
            let all_good = |dir: Seq<Seq<u8>>| None::<String>;
            let end = created(disk, dirs.map_values(place), above, all_good, 0);
            &&& end.1 == Ok::<(), PersistenceErrorView>(())
            &&& forall|i: int| 0 <= i < 3 ==> end.0.contains(path::parts(#[trigger] dirs[i]))
            &&& end.0.contains(path::parts(file)) ==> disk.contains(path::parts(file))
            &&& created(end.0, again.map_values(place), above, all_good, 0) == end
        }),
{
    let place = |path: PathBuf| path::parts(path);
    let above = |dir: Seq<Seq<u8>>| beginnings(dir);
    lemma_names();
    lemma_wanted(root, dirs);
    lemma_wanted(root, again);
    assert forall|i: int| 0 <= i < 3 implies place(#[trigger] again[i]) == place(dirs[i]) by {
        assert(i == 0 || i == 1 || i == 2);
    }
    law_creation_is_idempotent(disk, root, dirs, again, place, above);
    if path::joins(root, "settings.toml", file) {
        path::lemma_joins_is_place(root, "settings.toml", file);
    } else {
        path::lemma_joins_is_place(root, "data.db", file);
    }
    let f = path::parts(file);
    assert forall|i: int| 0 <= i < 3 implies !f.is_prefix_of(path::parts(#[trigger] dirs[i])) by {
        let d = path::parts(dirs[i]);
        assert(i == 0 || i == 1 || i == 2);
        if f.is_prefix_of(d) {
            assert(f[f.len() - 1] == d[f.len() - 1]);
            assert(f.last().len() >= 7 && d.last().len() <= 6);
        }
    }
    assert forall|i: int| 0 <= i < 3 implies place(#[trigger] dirs[i]) != f by {
        assert(f.is_prefix_of(f));
    }
}

/// The first directory that cannot be created ends the creation with an input or
/// output error.
pub proof fn law_creation_stops_at_a_fault(
    disk: Set<PathBuf>,
    root: PathBuf,
    dirs: Seq<PathBuf>,
    above: spec_fn(PathBuf) -> Set<PathBuf>,
    faults: spec_fn(PathBuf) -> Option<String>,
    n: int,
    err: String,
)
    requires
        are_wanted(root, dirs),
        0 <= n < 3,
        faults(dirs[n]) == Some(err),
        forall|i: int| 0 <= i < n ==> faults(#[trigger] dirs[i]) is None,
    ensures
        created(disk, dirs, above, faults, 0).1 == Err::<(), _>(
            PersistenceErrorView::IoError(err@),
        ),
{
    reveal_with_fuel(created, 4);
    assert(n > 0 ==> faults(dirs[0]) is None);
    assert(n > 1 ==> faults(dirs[1]) is None);
}

} // verus!
