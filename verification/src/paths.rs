//! Helper functions for picking files and folders out of a directory listing.
//!
//! Reading the directory is left to the caller. It hands over what it found as `PathEntry`
//! values, in the order in which the walk produced them.

use vstd::prelude::*;
use vstd::string::*;

verus! {

/// One entry of a directory listing: its file name, and whether it is a directory.
pub struct PathEntry {
    pub name: String,
    pub is_dir: bool,
}

/// The entries of `entries` that are directories, in their order.
pub open spec fn directories(entries: Seq<PathEntry>) -> Seq<PathEntry> {
    entries.filter(|entry: PathEntry| entry.is_dir)
}

/// The entries of `entries` that are no directories, in their order.
pub open spec fn files(entries: Seq<PathEntry>) -> Seq<PathEntry> {
    entries.filter(|entry: PathEntry| !entry.is_dir)
}

/// The names of `entries`, in their order.
pub open spec fn names(entries: Seq<PathEntry>) -> Seq<String> {
    entries.map_values(|entry: PathEntry| entry.name)
}

/// The text of the error for a path that does not exist.
pub open spec fn missing_path_text(path: Seq<char>) -> Seq<char> {
    "Path does not exist: "@ + path
}

/// What a walk of depth one leaves once the directory itself, which the walk yields first,
/// is taken off.
pub open spec fn below_root(walked: Seq<PathEntry>) -> Seq<PathEntry> {
    if walked.len() == 0 {
        walked
    } else {
        walked.subrange(1, walked.len() as int)
    }
}

/// The entries of the subsequence picked by `keep_dirs`: directories if it is true, all
/// others if not.
pub open spec fn picked(entries: Seq<PathEntry>, keep_dirs: bool) -> Seq<PathEntry> {
    if keep_dirs {
        directories(entries)
    } else {
        files(entries)
    }
}

proof fn picked_step(entries: Seq<PathEntry>, i: int, keep_dirs: bool)
    requires
        0 <= i < entries.len(),
    ensures
        picked(entries.take(i + 1), keep_dirs) == if entries[i].is_dir == keep_dirs {
            picked(entries.take(i), keep_dirs).push(entries[i])
        } else {
            picked(entries.take(i), keep_dirs)
        },
{
    reveal(Seq::filter);
    assert(entries.take(i + 1).drop_last() == entries.take(i));
    assert(entries.take(i + 1).last() == entries[i]);
}

fn pick(entries: &Vec<PathEntry>, keep_dirs: bool) -> (chosen: Vec<PathEntry>)
    ensures
        chosen@ == picked(entries@, keep_dirs),
{
    let mut chosen: Vec<PathEntry> = Vec::new();
    let mut i: usize = 0;
    while i < entries.len()
        invariant
            0 <= i <= entries.len(),
            chosen@ == picked(entries@.take(i as int), keep_dirs),
        decreases entries.len() - i,
    {
        proof {
            picked_step(entries@, i as int, keep_dirs);
        }
        if entries[i].is_dir == keep_dirs {
            chosen.push(PathEntry { name: entries[i].name.clone(), is_dir: entries[i].is_dir });
        }
        i += 1;
    }
    proof {
        assert(entries@.take(entries.len() as int) == entries@);
    }
    chosen
}

fn names_of(entries: &Vec<PathEntry>) -> (found: Vec<String>)
    ensures
        found@ == names(entries@),
{
    let mut found: Vec<String> = Vec::new();
    let mut i: usize = 0;
    while i < entries.len()
        invariant
            0 <= i <= entries.len(),
            found@ == names(entries@.take(i as int)),
        decreases entries.len() - i,
    {
        proof {
            assert(entries@.take(i + 1) == entries@.take(i as int).push(entries@[i as int]));
            assert(names(entries@.take(i + 1)) == names(entries@.take(i as int)).push(
                entries@[i as int].name,
            ));
        }
        found.push(entries[i].name.clone());
        i += 1;
    }
    proof {
        assert(entries@.take(entries.len() as int) == entries@);
    }
    found
}

/// The entries directly below `path`, from what a walk of depth one over it yielded.
///
/// `exists` says whether the path exists; if it does not, the result is the error that
/// names the path. Otherwise the result is `walked` without its first entry, which is the
/// path itself.
pub fn entries_in_path(path: &str, exists: bool, walked: Vec<PathEntry>) -> (res: Result<
    Vec<PathEntry>,
    String,
>)
    ensures
        !exists ==> (res matches Err(message) && message@ == missing_path_text(path@)),
        exists ==> (res matches Ok(entries) && entries@ == below_root(walked@)),
{
    if !exists {
        Err("Path does not exist: ".to_owned().concat(path))
    } else {
        let mut entries = walked;
        if entries.len() > 0 {
            let _ = entries.remove(0);
        }
        Ok(entries)
    }
}

/// The files of a listing: every entry that is no directory. An error is handed on.
pub fn files_in_path(listing: Result<Vec<PathEntry>, String>) -> (res: Result<
    Vec<PathEntry>,
    String,
>)
    ensures
        match listing {
            Ok(entries) => res matches Ok(chosen) && chosen@ == files(entries@),
            Err(error) => res == Err::<Vec<PathEntry>, String>(error),
        },
{
    match listing {
        Ok(entries) => Ok(pick(&entries, false)),
        Err(error) => Err(error),
    }
}

/// The directories of a listing. An error is handed on.
pub fn directories_in_path(listing: Result<Vec<PathEntry>, String>) -> (res: Result<
    Vec<PathEntry>,
    String,
>)
    ensures
        match listing {
            Ok(entries) => res matches Ok(chosen) && chosen@ == directories(entries@),
            Err(error) => res == Err::<Vec<PathEntry>, String>(error),
        },
{
    match listing {
        Ok(entries) => Ok(pick(&entries, true)),
        Err(error) => Err(error),
    }
}

/// The names of all entries of a listing. An error is handed on.
pub fn entry_names_in_path(listing: Result<Vec<PathEntry>, String>) -> (res: Result<
    Vec<String>,
    String,
>)
    ensures
        match listing {
            Ok(entries) => res matches Ok(found) && found@ == names(entries@),
            Err(error) => res == Err::<Vec<String>, String>(error),
        },
{
    match listing {
        Ok(entries) => Ok(names_of(&entries)),
        Err(error) => Err(error),
    }
}

/// The names of the files of a listing. An error is handed on.
pub fn file_names_in_path(listing: Result<Vec<PathEntry>, String>) -> (res: Result<
    Vec<String>,
    String,
>)
    ensures
        match listing {
            Ok(entries) => res matches Ok(found) && found@ == names(files(entries@)),
            Err(error) => res == Err::<Vec<String>, String>(error),
        },
{
    match listing {
        Ok(entries) => Ok(names_of(&pick(&entries, false))),
        Err(error) => Err(error),
    }
}

/// The names of the directories of a listing. An error is handed on.
pub fn directory_names_in_path(listing: Result<Vec<PathEntry>, String>) -> (res: Result<
    Vec<String>,
    String,
>)
    ensures
        match listing {
            Ok(entries) => res matches Ok(found) && found@ == names(directories(entries@)),
            Err(error) => res == Err::<Vec<String>, String>(error),
        },
{
    match listing {
        Ok(entries) => Ok(names_of(&pick(&entries, true))),
        Err(error) => Err(error),
    }
}

} // verus!
