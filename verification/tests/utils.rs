use std::collections::HashSet;

use factoriod::disk::{Directory, Entry, Listing};
use factoriod::error::FactorioServerStartError;
use factoriod::utils::{
    get_latest_save, get_saves, get_zips, latest_save_at, mtime_or_default, zips_at, SaveFile,
};

const SECOND: u128 = 1_000_000_000;

/// A regular file under `dir`, modified `seconds` after the epoch.
fn file(dir: &str, name: &str, seconds: u128) -> Entry {
    Entry { path: format!("{}/{}", dir, name), is_file: true, modified: Some(seconds * SECOND) }
}

/// A directory that was listed, with files modified one second after another
/// in the order given.
fn directory_with_files(path: &str, names: &[&str]) -> (Directory, Vec<String>) {
    let mut entries = Vec::new();
    let mut paths = Vec::new();
    let mut seconds: u128 = 1_700_000_000;
    for name in names {
        let entry = file(path, name, seconds);
        paths.push(entry.path.clone());
        entries.push(entry);
        seconds += 1;
    }
    (Directory { path: path.to_string(), listing: Listing::Entries(entries) }, paths)
}

fn missing_directory(path: &str) -> Directory {
    Directory { path: path.to_string(), listing: Listing::Unresolved }
}

fn paths_of(saves: &[SaveFile]) -> Vec<String> {
    saves.iter().map(|save| save.path.clone()).collect()
}

#[test]
fn test_mtime_or_default() {
    // a file whose modification time could not be read counts as old as the epoch
    assert_eq!(mtime_or_default(None), 0);

    let now: u128 = 1_700_000_000 * SECOND;
    assert_ne!(now, 0);
    assert_ne!(mtime_or_default(Some(now)), 0);
    assert_eq!(mtime_or_default(Some(now)), now);
}

#[test]
fn test_get_zips() {
    assert!(get_zips(&missing_directory("/does/not/exist")).is_err());
    let (mut dir, expected) = directory_with_files("/tmp/saves", &["a.zip", "b.zip", "c.zip"]);
    if let Listing::Entries(entries) = &mut dir.listing {
        entries.push(file("/tmp/saves", "d.txt", 1_700_000_010));
    }

    let actual = paths_of(&get_zips(&dir).unwrap()).into_iter().collect::<HashSet<_>>();
    assert_eq!(actual, expected.into_iter().collect());
}

#[test]
fn test_get_saves() {
    assert!(get_saves(&missing_directory("/does/not/exist")).is_err());
    let (dir, _expected) = directory_with_files("/tmp/empty", &[]);
    assert!(get_saves(&dir).unwrap().is_empty());

    let (dir, expected) = directory_with_files("/tmp/saves", &["a.zip", "b.zip", "c.zip"]);
    let actual = paths_of(&get_saves(&dir).unwrap());

    // get_saves orders by mtime, descending, so we need to reverse the expected list
    assert_eq!(actual, expected.into_iter().rev().collect::<Vec<_>>());
}

#[test]
fn test_get_latest_save() {
    assert!(get_latest_save(&missing_directory("/does/not/exist")).is_err());
    let (dir, expected) = directory_with_files("/tmp/saves", &["a.zip", "b.zip", "c.zip"]);
    let actual = get_latest_save(&dir).unwrap();

    assert_eq!(actual.path, expected[2]);
}

#[test]
fn latest_save_of_a_missing_directory_is_path_not_found() {
    assert_eq!(
        get_latest_save(&missing_directory("/does/not/exist")),
        Err(FactorioServerStartError::PathNotFound("/does/not/exist".to_string()))
    );
    assert_eq!(
        get_saves(&missing_directory("/does/not/exist")),
        Err(FactorioServerStartError::PathNotFound("/does/not/exist".to_string()))
    );
    assert_eq!(
        get_zips(&missing_directory("/does/not/exist")),
        Err(FactorioServerStartError::PathNotFound("/does/not/exist".to_string()))
    );
}

#[test]
fn unreadable_directory_is_start_failed_with_the_resolved_path() {
    let dir = Directory {
        path: "saves".to_string(),
        listing: Listing::Unreadable {
            resolved: "/var/lib/factoriod/saves".to_string(),
            source: "Permission denied (os error 13)".to_string(),
        },
    };
    let expected = FactorioServerStartError::StartFailed {
        path: "/var/lib/factoriod/saves".to_string(),
        source: "Permission denied (os error 13)".to_string(),
    };
    assert_eq!(get_zips(&dir), Err(expected.clone()));
    assert_eq!(get_saves(&dir), Err(expected.clone()));
    assert_eq!(get_latest_save(&dir), Err(expected));
}

#[test]
fn directory_without_zip_files_has_no_saves() {
    let (dir, _) = directory_with_files("/tmp/saves", &["a.txt", "b.tar.xz", "zip", "c.zipx"]);
    assert_eq!(get_zips(&dir), Ok(vec![]));
    assert_eq!(get_saves(&dir), Ok(vec![]));
    assert_eq!(
        get_latest_save(&dir),
        Err(FactorioServerStartError::NoSaveFound("/tmp/saves".to_string()))
    );
}

#[test]
fn only_regular_files_with_lower_case_zip_extension_are_saves() {
    let dir = Directory {
        path: "/s".to_string(),
        listing: Listing::Entries(vec![
            Entry { path: "/s/dir.zip".to_string(), is_file: false, modified: Some(9 * SECOND) },
            file("/s", "upper.ZIP", 8),
            file("/s", ".zip", 7),
            file("/s", "zip", 6),
            file("/s", "a.zip.bak", 5),
            file("/s", "good.zip", 4),
            file("/s", "two.dots.zip", 3),
            file("/s", ".hidden.zip", 2),
        ]),
    };
    assert_eq!(
        paths_of(&get_zips(&dir).unwrap()),
        vec!["/s/good.zip", "/s/two.dots.zip", "/s/.hidden.zip"]
    );
}

#[test]
fn saves_are_annotated_with_their_modification_time() {
    let dir = Directory {
        path: "/s".to_string(),
        listing: Listing::Entries(vec![
            file("/s", "a.zip", 5),
            Entry { path: "/s/unknown.zip".to_string(), is_file: true, modified: None },
        ]),
    };
    assert_eq!(
        get_zips(&dir).unwrap(),
        vec![
            SaveFile { path: "/s/a.zip".to_string(), modified: 5 * SECOND },
            SaveFile { path: "/s/unknown.zip".to_string(), modified: 0 },
        ]
    );
}

#[test]
fn listing_order_does_not_matter_for_distinct_times() {
    let orders: [[(&str, u128); 3]; 6] = [
        [("a.zip", 1), ("b.zip", 2), ("c.zip", 3)],
        [("a.zip", 1), ("c.zip", 3), ("b.zip", 2)],
        [("b.zip", 2), ("a.zip", 1), ("c.zip", 3)],
        [("b.zip", 2), ("c.zip", 3), ("a.zip", 1)],
        [("c.zip", 3), ("a.zip", 1), ("b.zip", 2)],
        [("c.zip", 3), ("b.zip", 2), ("a.zip", 1)],
    ];
    for order in orders {
        let entries = order.iter().map(|(name, seconds)| file("/s", name, *seconds)).collect();
        let dir = Directory { path: "/s".to_string(), listing: Listing::Entries(entries) };
        assert_eq!(get_latest_save(&dir).unwrap().path, "/s/c.zip");
        assert_eq!(
            paths_of(&get_saves(&dir).unwrap()),
            vec!["/s/c.zip", "/s/b.zip", "/s/a.zip"]
        );
    }
}

#[test]
fn files_without_modification_time_sort_last() {
    let dir = Directory {
        path: "/s".to_string(),
        listing: Listing::Entries(vec![
            Entry { path: "/s/unknown.zip".to_string(), is_file: true, modified: None },
            file("/s", "old.zip", 1),
            file("/s", "new.zip", 2),
        ]),
    };
    assert_eq!(
        paths_of(&get_saves(&dir).unwrap()),
        vec!["/s/new.zip", "/s/old.zip", "/s/unknown.zip"]
    );
    assert_eq!(get_latest_save(&dir).unwrap().path, "/s/new.zip");
}

#[test]
fn of_saves_modified_at_the_same_instant_the_one_listed_last_wins() {
    let dir = Directory {
        path: "/s".to_string(),
        listing: Listing::Entries(vec![
            file("/s", "first.zip", 7),
            file("/s", "older.zip", 3),
            file("/s", "second.zip", 7),
        ]),
    };
    let latest = get_latest_save(&dir).unwrap();
    assert_eq!(latest.modified, 7 * SECOND);
    assert_eq!(latest.path, "/s/second.zip");
    // the most recent of get_saves is the latest save
    let saves = get_saves(&dir).unwrap();
    assert_eq!(saves[0], latest);
    assert_eq!(paths_of(&saves), vec!["/s/second.zip", "/s/first.zip", "/s/older.zip"]);
    // asking again gives the same answer
    assert_eq!(get_latest_save(&dir).unwrap(), latest);
}

#[test]
fn get_saves_keeps_every_save_once() {
    let dir = Directory {
        path: "/s".to_string(),
        listing: Listing::Entries(vec![
            file("/s", "e.zip", 5),
            file("/s", "a.zip", 1),
            file("/s", "notes.txt", 9),
            file("/s", "d.zip", 4),
            file("/s", "b.zip", 2),
            file("/s", "c.zip", 3),
        ]),
    };
    let saves = get_saves(&dir).unwrap();
    assert_eq!(
        paths_of(&saves),
        vec!["/s/e.zip", "/s/d.zip", "/s/c.zip", "/s/b.zip", "/s/a.zip"]
    );
    for pair in saves.windows(2) {
        assert!(pair[0].modified >= pair[1].modified);
    }
}

#[test]
fn a_listing_can_be_queried_under_any_name() {
    let (dir, expected) = directory_with_files("/tmp/saves", &["a.zip", "b.zip"]);
    assert_eq!(paths_of(&zips_at("saves", &dir.listing).unwrap()), expected);
    assert_eq!(latest_save_at("saves", &dir.listing).unwrap().path, expected[1]);
    assert_eq!(
        latest_save_at("saves", &Listing::Entries(vec![])),
        Err(FactorioServerStartError::NoSaveFound("saves".to_string()))
    );
    assert_eq!(
        zips_at("saves", &Listing::Unresolved),
        Err(FactorioServerStartError::PathNotFound("saves".to_string()))
    );
}
