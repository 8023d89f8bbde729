//! Preparing a service unit: where the environment line is written, and where
//! the game's archives are kept and unpacked.

use vstd::prelude::*;
use crate::daemon::{text_of, ServiceDirectories};
use crate::download::DownloadError;
use crate::paths::{join, join_of, parent, parent_of};

verus! {

/// The name of the file that holds the environment line, in the cache
/// directory.
pub const OPTS_ENV_FILE: &'static str = "factorio.opts.env";

/// The file that holds the environment line: `factorio.opts.env` in the cache
/// directory, or `CacheDirNotFound` where there is none.
pub open spec fn opts_env_path_of(cache_dir: Option<Seq<char>>) -> Result<Seq<char>, DownloadError> {
    match cache_dir {
        Some(dir) => Ok(join_of(dir, "factorio.opts.env"@)),
        None => Err(DownloadError::CacheDirNotFound),
    }
}

/// The directory that archives are downloaded to: the cache directory, or
/// `CacheDirNotFound` where there is none.
pub open spec fn download_directory_of(cache_dir: Option<Seq<char>>) -> Result<
    Seq<char>,
    DownloadError,
> {
    match cache_dir {
        Some(dir) => Ok(dir),
        None => Err(DownloadError::CacheDirNotFound),
    }
}

/// The directory that an archive is unpacked into: the one that holds it, or
/// `ArchiveHasNoParent` where its path names none.
pub open spec fn extract_destination_of(archive: Seq<char>) -> Result<Seq<char>, DownloadError> {
    match parent_of(archive) {
        Some(dir) => Ok(dir),
        None => Err(DownloadError::ArchiveHasNoParent),
    }
}

/// The path of the file that the environment line is written to.
///
/// Fails with `CacheDirNotFound` where `dirs` holds no cache directory.
pub fn opts_env_path(dirs: &ServiceDirectories) -> (path: Result<String, DownloadError>)
    ensures
        match path {
            Ok(path) => opts_env_path_of(text_of(dirs.cache_dir)) == Ok::<Seq<char>, DownloadError>(
                path@,
            ),
            Err(error) => opts_env_path_of(text_of(dirs.cache_dir)) == Err::<
                Seq<char>,
                DownloadError,
            >(error),
        },
{
    match &dirs.cache_dir {
        Some(dir) => Ok(join(dir.as_str(), OPTS_ENV_FILE)),
        None => Err(DownloadError::CacheDirNotFound),
    }
}

/// The directory that archives are downloaded to and looked for in.
///
/// Fails with `CacheDirNotFound` where `dirs` holds no cache directory.
pub fn download_directory(dirs: &ServiceDirectories) -> (dir: Result<String, DownloadError>)
    ensures
        match dir {
            Ok(dir) => download_directory_of(text_of(dirs.cache_dir)) == Ok::<
                Seq<char>,
                DownloadError,
            >(dir@),
            Err(error) => download_directory_of(text_of(dirs.cache_dir)) == Err::<
                Seq<char>,
                DownloadError,
            >(error),
        },
{
    match &dirs.cache_dir {
        Some(dir) => Ok(dir.clone()),
        None => Err(DownloadError::CacheDirNotFound),
    }
}

/// The directory that the archive at `archive` is unpacked into.
///
/// Fails with `ArchiveHasNoParent` where `archive` is empty or `/`.
pub fn extract_destination(archive: &str) -> (dir: Result<String, DownloadError>)
    ensures
        match dir {
            Ok(dir) => extract_destination_of(archive@) == Ok::<Seq<char>, DownloadError>(dir@),
            Err(error) => extract_destination_of(archive@) == Err::<Seq<char>, DownloadError>(
                error,
            ),
        },
{
    match parent(archive) {
        Some(dir) => Ok(dir),
        None => Err(DownloadError::ArchiveHasNoParent),
    }
}

} // verus!
