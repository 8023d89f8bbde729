//! Finding save files in a directory and choosing the most recent one.

use vstd::prelude::*;
use crate::disk::{Directory, DirectoryView, Entry, EntryView, Listing, ListingView};
use crate::error::{FactorioServerStartError, StartErrorView};
use crate::paths::{is_zip, is_zip_path};

verus! {

/// A save file: a regular file whose extension is `zip`, and when it was last
/// modified, in nanoseconds since the Unix epoch.
#[derive(Clone, Debug, PartialEq, Eq)]
pub struct SaveFile {
    pub path: String,
    pub modified: u128,
}

/// The mathematical value of a [`SaveFile`].
pub struct SaveFileView {
    pub path: Seq<char>,
    pub modified: u128,
}

impl View for SaveFile {
    type V = SaveFileView;

    open spec fn view(&self) -> SaveFileView {
        SaveFileView { path: self.path@, modified: self.modified }
    }
}

impl DeepView for SaveFile {
    type V = SaveFileView;

    open spec fn deep_view(&self) -> SaveFileView {
        self@
    }
}

/// A modification time, or the Unix epoch where there is none: a file whose
/// time could not be read counts as the oldest.
pub open spec fn mtime_of(modified: Option<u128>) -> u128 {
    match modified {
        Some(time) => time,
        None => 0,
    }
}

/// Whether a directory entry is a save file.
pub open spec fn is_save(entry: EntryView) -> bool {
    entry.is_file && is_zip_path(entry.path)
}

/// The save file that a directory entry stands for.
pub open spec fn save_of(entry: EntryView) -> SaveFileView {
    SaveFileView { path: entry.path, modified: mtime_of(entry.modified) }
}

/// The save files among `entries`, in the order of `entries`.
pub open spec fn zips_of(entries: Seq<EntryView>) -> Seq<SaveFileView> {
    entries.filter(|entry: EntryView| is_save(entry)).map_values(
        |entry: EntryView| save_of(entry),
    )
}

/// The save files of a directory, or why it could not be read.
pub open spec fn zips_in(dir: DirectoryView) -> Result<Seq<SaveFileView>, StartErrorView> {
    match dir.listing {
        ListingView::Unresolved => Err(StartErrorView::PathNotFound(dir.path)),
        ListingView::Unreadable { resolved, source } => Err(
            StartErrorView::StartFailed { path: resolved, source },
        ),
        ListingView::Entries(entries) => Ok(zips_of(entries)),
    }
}

/// The index in `saves` of the most recent save: the last of those with the
/// greatest modification time. It is `-1` where `saves` is empty.
pub open spec fn latest_index(saves: Seq<SaveFileView>) -> int
    decreases saves.len(),
{
    if saves.len() == 0 {
        -1
    } else {
        let before = latest_index(saves.drop_last());
        if before >= 0 && saves[before].modified > saves.last().modified {
            before
        } else {
            saves.len() - 1
        }
    }
}

/// `saves` with the most recent first: the latest save, then the latest of the
/// rest, and so on.
pub open spec fn newest_first(saves: Seq<SaveFileView>) -> Seq<SaveFileView>
    decreases saves.len(),
    via newest_first_terminates
{
    if saves.len() == 0 {
        Seq::empty()
    } else {
        seq![saves[latest_index(saves)]] + newest_first(saves.remove(latest_index(saves)))
    }
}

#[via_fn]
proof fn newest_first_terminates(saves: Seq<SaveFileView>) {
    if saves.len() > 0 {
        lemma_latest_index(saves);
    }
}

/// What `get_saves` returns for a directory.
pub open spec fn saves_in(dir: DirectoryView) -> Result<Seq<SaveFileView>, StartErrorView> {
    match zips_in(dir) {
        Ok(zips) => Ok(newest_first(zips)),
        Err(error) => Err(error),
    }
}

/// What `get_latest_save` returns for a directory.
pub open spec fn latest_save_in(dir: DirectoryView) -> Result<SaveFileView, StartErrorView> {
    match zips_in(dir) {
        Ok(zips) => if zips.len() == 0 {
            Err(StartErrorView::NoSaveFound(dir.path))
        } else {
            Ok(zips[latest_index(zips)])
        },
        Err(error) => Err(error),
    }
}

/// `latest_index` is in range, nothing is newer than the save it names, and
/// every save after it is strictly older.
pub proof fn lemma_latest_index(saves: Seq<SaveFileView>)
    requires
        saves.len() > 0,
    ensures
        0 <= latest_index(saves) < saves.len(),
        forall|j: int|
            0 <= j < saves.len() ==> (#[trigger] saves[j]).modified
                <= saves[latest_index(saves)].modified,
        forall|j: int|
            latest_index(saves) < j < saves.len() ==> (#[trigger] saves[j]).modified
                < saves[latest_index(saves)].modified,
    decreases saves.len(),
{
    if saves.len() > 1 {
        lemma_latest_index(saves.drop_last());
        let before = latest_index(saves.drop_last());
        assert(saves.drop_last()[before] == saves[before]);
        assert forall|j: int| 0 <= j < saves.len() implies (#[trigger] saves[j]).modified
            <= saves[latest_index(saves)].modified by {
            if j < saves.len() - 1 {
                assert(saves.drop_last()[j] == saves[j]);
            }
        }
        assert forall|j: int| latest_index(saves) < j < saves.len() implies (
        #[trigger] saves[j]).modified < saves[latest_index(saves)].modified by {
            if j < saves.len() - 1 {
                assert(saves.drop_last()[j] == saves[j]);
            }
        }
    } else {
        reveal_with_fuel(latest_index, 2);
    }
}

/// When an entry was last modified, or the Unix epoch where that is unknown.
pub fn mtime_or_default(modified: Option<u128>) -> (time: u128)
    ensures
        time == mtime_of(modified),
{
    match modified {
        Some(time) => time,
        None => 0,
    }
}

/// Adding an entry to a listing adds its save file at the end, if it is one.
pub proof fn lemma_zips_of_push(entries: Seq<EntryView>, entry: EntryView)
    ensures
        zips_of(entries.push(entry)) == if is_save(entry) {
            zips_of(entries).push(save_of(entry))
        } else {
            zips_of(entries)
        },
{
    reveal(Seq::filter);
    let keep = |entry: EntryView| is_save(entry);
    assert(entries.push(entry).drop_last() =~= entries);
    if is_save(entry) {
        assert(entries.push(entry).filter(keep) == entries.filter(keep).push(entry));
        assert(zips_of(entries.push(entry)) =~= zips_of(entries).push(save_of(entry)));
    }
}

/// The save files of the directory that the caller named `path` and whose
/// listing gave `listing`, in the order of the listing.
///
/// Fails with `PathNotFound` where the directory could not be resolved, and
/// with `StartFailed` where it could not be listed.
pub fn zips_at(path: &str, listing: &Listing) -> (found: Result<
    Vec<SaveFile>,
    FactorioServerStartError,
>)
    ensures
        match found {
            Ok(zips) => zips_in(DirectoryView { path: path@, listing: listing@ }) == Ok::<
                Seq<SaveFileView>,
                StartErrorView,
            >(zips.deep_view()),
            Err(error) => zips_in(DirectoryView { path: path@, listing: listing@ }) == Err::<
                Seq<SaveFileView>,
                StartErrorView,
            >(error@),
        },
{
    match listing {
        Listing::Unresolved => Err(FactorioServerStartError::PathNotFound(path.to_owned())),
        Listing::Unreadable { resolved, source } => Err(
            FactorioServerStartError::StartFailed {
                path: resolved.clone(),
                source: source.clone(),
            },
        ),
        Listing::Entries(entries) => {
            let mut zips: Vec<SaveFile> = Vec::new();
            let mut i: usize = 0;
            assert(entries.deep_view().take(0) =~= Seq::<EntryView>::empty());
            assert(zips.deep_view() =~= zips_of(Seq::<EntryView>::empty()));
            while i < entries.len()
                invariant
                    i <= entries.len(),
                    zips.deep_view() == zips_of(entries.deep_view().take(i as int)),
                decreases entries.len() - i,
            {
                let entry = &entries[i];
                let ghost before = zips.deep_view();
                proof {
                    lemma_zips_of_push(entries.deep_view().take(i as int), entry@);
                    assert(entries.deep_view().take(i + 1) =~= entries.deep_view().take(
                        i as int,
                    ).push(entry@));
                }
                if entry.is_file && is_zip(entry.path.as_str()) {
                    let save = SaveFile {
                        path: entry.path.clone(),
                        modified: mtime_or_default(entry.modified),
                    };
                    zips.push(save);
                    assert(zips.deep_view() =~= before.push(save_of(entry@)));
                }
                i += 1;
            }
            assert(entries.deep_view().take(i as int) =~= entries.deep_view());
            Ok(zips)
        },
    }
}

/// The save files of a directory, in the order in which the directory listed
/// them: its entries that are regular files with the extension `zip`.
///
/// Fails with `PathNotFound` where the directory could not be resolved, and
/// with `StartFailed` where it could not be listed.
pub fn get_zips(dir: &Directory) -> (found: Result<Vec<SaveFile>, FactorioServerStartError>)
    ensures
        match found {
            Ok(zips) => zips_in(dir@) == Ok::<Seq<SaveFileView>, StartErrorView>(
                zips.deep_view(),
            ),
            Err(error) => zips_in(dir@) == Err::<Seq<SaveFileView>, StartErrorView>(error@),
        },
{
    zips_at(dir.path.as_str(), &dir.listing)
}

/// Where the most recent of `saves` stands.
fn latest_position(saves: &Vec<SaveFile>) -> (latest: usize)
    requires
        saves.len() > 0,
    ensures
        latest == latest_index(saves.deep_view()),
{
    let mut latest: usize = 0;
    let mut i: usize = 1;
    proof {
        reveal_with_fuel(latest_index, 2);
        assert(saves.deep_view().take(1).drop_last() =~= Seq::<SaveFileView>::empty());
    }
    while i < saves.len()
        invariant
            1 <= i <= saves.len(),
            latest < i,
            latest == latest_index(saves.deep_view().take(i as int)),
        decreases saves.len() - i,
    {
        proof {
            assert(saves.deep_view().take(i + 1).drop_last() =~= saves.deep_view().take(
                i as int,
            ));
        }
        if !(saves[latest].modified > saves[i].modified) {
            latest = i;
        }
        i += 1;
    }
    assert(saves.deep_view().take(i as int) =~= saves.deep_view());
    latest
}

/// The save files of a directory, the most recently modified first. Of two
/// saves modified at the same instant, the one listed later comes first. A
/// directory without saves gives an empty list.
///
/// Fails with `PathNotFound` where the directory could not be resolved, and
/// with `StartFailed` where it could not be listed.
pub fn get_saves(save_dir: &Directory) -> (found: Result<Vec<SaveFile>, FactorioServerStartError>)
    ensures
        match found {
            Ok(saves) => saves_in(save_dir@) == Ok::<Seq<SaveFileView>, StartErrorView>(
                saves.deep_view(),
            ),
            Err(error) => saves_in(save_dir@) == Err::<Seq<SaveFileView>, StartErrorView>(error@),
        },
{
    let mut rest = match get_zips(save_dir) {
        Ok(zips) => zips,
        Err(error) => {
            return Err(error);
        },
    };
    let ghost zips = rest.deep_view();
    let mut saves: Vec<SaveFile> = Vec::new();
    assert(saves.deep_view() + newest_first(zips) =~= newest_first(zips));
    while rest.len() > 0
        invariant
            saves.deep_view() + newest_first(rest.deep_view()) == newest_first(zips),
        decreases rest.len(),
    {
        let ghost sorted = saves.deep_view();
        let ghost unsorted = rest.deep_view();
        let latest = latest_position(&rest);
        proof {
            lemma_latest_index(unsorted);
        }
        let save = rest.remove(latest);
        saves.push(save);
        proof {
            assert(rest.deep_view() =~= unsorted.remove(latest as int));
            assert(saves.deep_view() =~= sorted.push(unsorted[latest as int]));
            assert(sorted.push(unsorted[latest as int]) + newest_first(
                unsorted.remove(latest as int),
            ) =~= sorted + newest_first(unsorted));
        }
    }
    assert(saves.deep_view() + newest_first(rest.deep_view()) =~= saves.deep_view());
    Ok(saves)
}

/// The most recently modified save file of the directory that the caller
/// named `path` and whose listing gave `listing`; of several modified at the
/// same instant, the one listed last.
///
/// Fails with `PathNotFound` where the directory could not be resolved, with
/// `StartFailed` where it could not be listed, and with `NoSaveFound` where it
/// holds no save.
pub fn latest_save_at(path: &str, listing: &Listing) -> (found: Result<
    SaveFile,
    FactorioServerStartError,
>)
    ensures
        match found {
            Ok(save) => latest_save_in(DirectoryView { path: path@, listing: listing@ }) == Ok::<
                SaveFileView,
                StartErrorView,
            >(save@),
            Err(error) => latest_save_in(DirectoryView { path: path@, listing: listing@ }) == Err::<
                SaveFileView,
                StartErrorView,
            >(error@),
        },
{
    let mut zips = match zips_at(path, listing) {
        Ok(zips) => zips,
        Err(error) => {
            return Err(error);
        },
    };
    if zips.len() == 0 {
        return Err(FactorioServerStartError::NoSaveFound(path.to_owned()));
    }
    let latest = latest_position(&zips);
    proof {
        lemma_latest_index(zips.deep_view());
    }
    Ok(zips.remove(latest))
}

/// The most recently modified save file of a directory; of several modified at
/// the same instant, the one listed last.
///
/// Fails with `PathNotFound` where the directory could not be resolved, with
/// `StartFailed` where it could not be listed, and with `NoSaveFound` where it
/// holds no save.
pub fn get_latest_save(save_dir: &Directory) -> (found: Result<SaveFile, FactorioServerStartError>)
    ensures
        match found {
            Ok(save) => latest_save_in(save_dir@) == Ok::<SaveFileView, StartErrorView>(save@),
            Err(error) => latest_save_in(save_dir@) == Err::<SaveFileView, StartErrorView>(error@),
        },
{
    latest_save_at(save_dir.path.as_str(), &save_dir.listing)
}

} // verus!
