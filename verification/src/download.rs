//! Releases of Factorio: which there are, where to download one, and what to
//! check before an archive is unpacked.
//!
//! The functions here neither fetch nor unpack. They say what to fetch and
//! whether an archive may be unpacked.

use vstd::prelude::*;
use crate::disk::{Entry, EntryView};
use crate::paths::{extension_of, has_extension, is_tar_xz, is_tar_xz_path, join, join_of,
    stem_of, without_extension};

verus! {

/// The kind of build of a release.
#[derive(Clone, Copy, Debug, PartialEq, Eq)]
pub enum Build {
    /// The full game.
    Alpha,
    /// The demo.
    Demo,
    /// The server without graphics.
    Headless,
}

impl Build {
    /// The build's name in a download address.
    pub open spec fn name(self) -> Seq<char> {
        match self {
            Build::Alpha => "alpha"@,
            Build::Demo => "demo"@,
            Build::Headless => "headless"@,
        }
    }

    /// The build's name in a download address.
    pub fn as_str(&self) -> (name: &'static str)
        ensures
            name@ == self.name(),
    {
        match self {
            Build::Alpha => "alpha",
            Build::Demo => "demo",
            Build::Headless => "headless",
        }
    }
}

/// The platform and packaging of a release.
#[derive(Clone, Copy, Debug, PartialEq, Eq)]
pub enum Distro {
    /// Windows, 64 bit, as an installer.
    Win64,
    /// Windows, 64 bit, as a ZIP archive.
    Win64Manual,
    /// Windows, 32 bit, as an installer.
    Win32,
    /// Windows, 32 bit, as a ZIP archive.
    Win32Manual,
    /// macOS, as a disk image.
    Osx,
    /// Linux, 64 bit, as a compressed tarball.
    Linux64,
    /// Linux, 32 bit, as a compressed tarball.
    Linux32,
}

impl Distro {
    /// The distribution's name in a download address.
    pub open spec fn name(self) -> Seq<char> {
        match self {
            Distro::Win64 => "win64"@,
            Distro::Win64Manual => "win64-manual"@,
            Distro::Win32 => "win32"@,
            Distro::Win32Manual => "win32-manual"@,
            Distro::Osx => "osx"@,
            Distro::Linux64 => "linux64"@,
            Distro::Linux32 => "linux32"@,
        }
    }

    /// The distribution's name in a download address.
    pub fn as_str(&self) -> (name: &'static str)
        ensures
            name@ == self.name(),
    {
        match self {
            Distro::Win64 => "win64",
            Distro::Win64Manual => "win64-manual",
            Distro::Win32 => "win32",
            Distro::Win32Manual => "win32-manual",
            Distro::Osx => "osx",
            Distro::Linux64 => "linux64",
            Distro::Linux32 => "linux32",
        }
    }
}

/// Why a release cannot be chosen, downloaded or unpacked.
#[derive(Clone, Copy, Debug, PartialEq, Eq, Structural)]
pub enum DownloadError {
    /// The list of releases names no stable release.
    NoStableVersions,
    /// The stable release has no headless build.
    NoStableHeadlessVersion,
    /// The pre-release or the build metadata of a version is malformed.
    InvalidVersion,
    /// A regular file stands where the target directory should be.
    DirectoryIsFile,
    /// No regular file stands at the archive's path.
    ArchiveNotFile,
    /// The archive's extension is not `xz`.
    ArchiveNotXz,
    /// The archive's name does not end in `.tar.xz`.
    ArchiveNotTarXz,
    /// The directory under which Factorio is kept does not exist.
    RootMissing,
    /// The service manager assigned no cache directory.
    CacheDirNotFound,
    /// The archive's path names no directory that holds it.
    ArchiveHasNoParent,
}

impl DownloadError {
    /// The sentence that describes this error.
    pub open spec fn text(self) -> Seq<char> {
        match self {
            DownloadError::NoStableVersions => "no stable versions"@,
            DownloadError::NoStableHeadlessVersion => "no stable headless version"@,
            DownloadError::InvalidVersion => "version is not a semantic version"@,
            DownloadError::DirectoryIsFile => "directory is a file"@,
            DownloadError::ArchiveNotFile => "archive is not a file"@,
            DownloadError::ArchiveNotXz => "archive is not an .xz file"@,
            DownloadError::ArchiveNotTarXz => "archive is not a .tar.xz file"@,
            DownloadError::RootMissing => "root does not exist"@,
            DownloadError::CacheDirNotFound => "cache dir not found"@,
            DownloadError::ArchiveHasNoParent => "archive has no parent"@,
        }
    }

    /// The sentence that describes this error.
    pub fn message(&self) -> (message: &'static str)
        ensures
            message@ == self.text(),
    {
        match self {
            DownloadError::NoStableVersions => "no stable versions",
            DownloadError::NoStableHeadlessVersion => "no stable headless version",
            DownloadError::InvalidVersion => "version is not a semantic version",
            DownloadError::DirectoryIsFile => "directory is a file",
            DownloadError::ArchiveNotFile => "archive is not a file",
            DownloadError::ArchiveNotXz => "archive is not an .xz file",
            DownloadError::ArchiveNotTarXz => "archive is not a .tar.xz file",
            DownloadError::RootMissing => "root does not exist",
            DownloadError::CacheDirNotFound => "cache dir not found",
            DownloadError::ArchiveHasNoParent => "archive has no parent",
        }
    }
}

/// A version of Factorio, in the parts of a semantic version.
#[derive(Clone, Debug, PartialEq, Eq)]
pub struct Version {
    pub major: u64,
    pub minor: u64,
    pub patch: u64,
    /// The pre-release, without the `-` before it; empty where there is none.
    pub pre: String,
    /// The build metadata, without the `+` before it; empty where there is none.
    pub build: String,
}

/// The mathematical value of a [`Version`].
pub struct VersionView {
    pub major: u64,
    pub minor: u64,
    pub patch: u64,
    pub pre: Seq<char>,
    pub build: Seq<char>,
}

impl View for Version {
    type V = VersionView;

    open spec fn view(&self) -> VersionView {
        VersionView {
            major: self.major,
            minor: self.minor,
            patch: self.patch,
            pre: self.pre@,
            build: self.build@,
        }
    }
}

/// The character of a decimal digit.
pub open spec fn digit_char(digit: nat) -> char {
    if digit == 0 {
        '0'
    } else if digit == 1 {
        '1'
    } else if digit == 2 {
        '2'
    } else if digit == 3 {
        '3'
    } else if digit == 4 {
        '4'
    } else if digit == 5 {
        '5'
    } else if digit == 6 {
        '6'
    } else if digit == 7 {
        '7'
    } else if digit == 8 {
        '8'
    } else {
        '9'
    }
}

/// A number in decimal digits, without leading zeros.
pub open spec fn decimal(n: nat) -> Seq<char>
    decreases n,
{
    if n < 10 {
        seq![digit_char(n)]
    } else {
        decimal(n / 10).push(digit_char(n % 10))
    }
}

/// A version as text: `major.minor.patch`, then `-` and the pre-release where
/// there is one, then `+` and the build metadata where there is any.
pub open spec fn version_text(version: VersionView) -> Seq<char> {
    decimal(version.major as nat) + seq!['.'] + decimal(version.minor as nat) + seq!['.']
        + decimal(version.patch as nat) + (if version.pre.len() > 0 {
        seq!['-'] + version.pre
    } else {
        Seq::empty()
    }) + (if version.build.len() > 0 {
        seq!['+'] + version.build
    } else {
        Seq::empty()
    })
}

/// Whether `semver::Prerelease::new` takes `text` as a pre-release.
pub uninterp spec fn semver_prerelease(text: Seq<char>) -> bool;

/// Whether `semver::BuildMetadata::new` takes `text` as build metadata.
pub uninterp spec fn semver_build_metadata(text: Seq<char>) -> bool;

/// Whether the pre-release and the build metadata of `version` are well
/// formed: each is empty, or `semver` takes it.
pub open spec fn is_semver(version: VersionView) -> bool {
    (version.pre.len() == 0 || semver_prerelease(version.pre)) && (version.build.len() == 0
        || semver_build_metadata(version.build))
}

/// Calls `semver::Prerelease::new` on `pre` and `semver::BuildMetadata::new`
/// on `build`, makes a `semver::Version` of the five parts and returns what
/// its `Display` writes.
///
/// Not proved, taken from `semver`: the result is `None` exactly where one of
/// the two constructors fails, which neither does on the empty text; and the
/// text is the three numbers in decimal with `.` between them, then `-` and
/// `pre` unless `pre` is empty, then `+` and `build` unless `build` is empty.
#[verifier::external_body]
fn semver_text(major: u64, minor: u64, patch: u64, pre: &str, build: &str) -> (text: Option<String>)
    ensures
        text is Some <==> ((pre@.len() == 0 || semver_prerelease(pre@)) && (build@.len() == 0
            || semver_build_metadata(build@))),
        text matches Some(text) ==> text@ == version_text(
            VersionView { major, minor, patch, pre: pre@, build: build@ },
        ),
{
    let pre = semver::Prerelease::new(pre).ok()?;
    let build = semver::BuildMetadata::new(build).ok()?;
    Some(semver::Version { major, minor, patch, pre, build }.to_string())
}

impl Version {
    /// The version `major.minor.patch`, without pre-release and build metadata.
    pub fn new(major: u64, minor: u64, patch: u64) -> (version: Version)
        ensures
            version@ == (VersionView {
                major,
                minor,
                patch,
                pre: Seq::<char>::empty(),
                build: Seq::<char>::empty(),
            }),
            is_semver(version@),
    {
        Version { major, minor, patch, pre: String::new(), build: String::new() }
    }

    /// The version as text, or `None` where its pre-release or its build
    /// metadata is malformed.
    pub fn to_text(&self) -> (text: Option<String>)
        ensures
            text is Some <==> is_semver(self@),
            text matches Some(text) ==> text@ == version_text(self@),
    {
        semver_text(self.major, self.minor, self.patch, self.pre.as_str(), self.build.as_str())
    }
}

/// The builds of one release. Each field holds the version of that build, if
/// the release has it.
#[derive(Clone, Debug, PartialEq, Eq)]
pub struct Builds {
    pub alpha: Option<Version>,
    pub demo: Option<Version>,
    pub headless: Option<Version>,
}

/// The latest releases of Factorio.
#[derive(Clone, Debug, PartialEq, Eq)]
pub struct Versions {
    pub stable: Option<Builds>,
    pub experimental: Option<Builds>,
}

/// The headless build of the stable release among `versions`, or which of
/// the two is missing.
pub open spec fn stable_headless_of(versions: Versions) -> Result<VersionView, DownloadError> {
    match versions.stable {
        None => Err(DownloadError::NoStableVersions),
        Some(stable) => match stable.headless {
            None => Err(DownloadError::NoStableHeadlessVersion),
            Some(version) => Ok(version@),
        },
    }
}

/// The version of the latest stable headless build among `versions`.
///
/// Fails with `NoStableVersions` where `versions` names no stable release, and
/// with `NoStableHeadlessVersion` where the stable release has no headless
/// build.
pub fn latest_stable_headless_version(versions: &Versions) -> (latest: Result<
    Version,
    DownloadError,
>)
    ensures
        match latest {
            Ok(version) => stable_headless_of(*versions) == Ok::<VersionView, DownloadError>(
                version@,
            ),
            Err(error) => stable_headless_of(*versions) == Err::<VersionView, DownloadError>(error),
        },
{
    match &versions.stable {
        None => Err(DownloadError::NoStableVersions),
        Some(stable) => match &stable.headless {
            None => Err(DownloadError::NoStableHeadlessVersion),
            Some(version) => Ok(
                Version {
                    major: version.major,
                    minor: version.minor,
                    patch: version.patch,
                    pre: version.pre.clone(),
                    build: version.build.clone(),
                },
            ),
        },
    }
}

/// The address from which a build of a version is downloaded.
pub open spec fn download_url_of(version: Seq<char>, build: Build, distro: Distro) -> Seq<char> {
    "https://factorio.com/get-download/"@ + version + seq!['/'] + build.name() + seq!['/']
        + distro.name()
}

/// The address for a version that is already text.
pub fn download_url_for(version: &str, build: Build, distro: Distro) -> (url: String)
    ensures
        url@ == download_url_of(version@, build, distro),
{
    proof {
        reveal_strlit("/");
        assert("/"@ =~= seq!['/']);
    }
    "https://factorio.com/get-download/".to_owned().concat(version).concat("/").concat(
        build.as_str(),
    ).concat("/").concat(distro.as_str())
}

/// The address from which `build` of `version` for `distro` is downloaded:
/// `https://factorio.com/get-download/`, then the version, the build and the
/// distribution with `/` between them.
///
/// Fails with `InvalidVersion` where the version's pre-release or build
/// metadata is malformed.
pub fn download_url(version: &Version, build: Build, distro: Distro) -> (url: Result<
    String,
    DownloadError,
>)
    ensures
        match url {
            Ok(url) => is_semver(version@) && url@ == download_url_of(
                version_text(version@),
                build,
                distro,
            ),
            Err(error) => !is_semver(version@) && error == DownloadError::InvalidVersion,
        },
{
    match version.to_text() {
        Some(text) => Ok(download_url_for(text.as_str(), build, distro)),
        None => Err(DownloadError::InvalidVersion),
    }
}

/// What `download_to` answers: the address to fetch, unless a regular file
/// stands in the way of the target directory or the version is malformed.
pub open spec fn download_request(
    version: VersionView,
    build: Build,
    distro: Distro,
    directory_is_file: bool,
) -> Result<Seq<char>, DownloadError> {
    if directory_is_file {
        Err(DownloadError::DirectoryIsFile)
    } else if !is_semver(version) {
        Err(DownloadError::InvalidVersion)
    } else {
        Ok(download_url_of(version_text(version), build, distro))
    }
}

/// First step of a download into a directory: the address to fetch.
/// `directory_is_file` says whether a regular file stands at the directory's
/// path. On success the caller makes the directory, fetches the address and
/// asks `download_destination` where to write what it got.
///
/// Fails with `DirectoryIsFile` where a regular file stands at the
/// directory's path, and with `InvalidVersion` where the version's
/// pre-release or build metadata is malformed.
pub fn download_to(version: &Version, build: Build, distro: Distro, directory_is_file: bool) -> (url:
    Result<String, DownloadError>)
    ensures
        match url {
            Ok(url) => download_request(version@, build, distro, directory_is_file) == Ok::<
                Seq<char>,
                DownloadError,
            >(url@),
            Err(error) => download_request(version@, build, distro, directory_is_file) == Err::<
                Seq<char>,
                DownloadError,
            >(error),
        },
{
    if directory_is_file {
        return Err(DownloadError::DirectoryIsFile);
    }
    download_url(version, build, distro)
}

/// The text of a path segment that may be absent.
pub open spec fn segment_text(segment: Option<&str>) -> Option<Seq<char>> {
    match segment {
        Some(segment) => Some(segment@),
        None => None,
    }
}

/// The text of an owned path segment that may be absent.
pub open spec fn owned_segment_text(segment: Option<String>) -> Option<Seq<char>> {
    match segment {
        Some(segment) => Some(segment@),
        None => None,
    }
}

/// The file name for a downloaded archive: the last segment of the address
/// that served it, or `factorio.tar.xz` where that is absent or empty.
pub open spec fn archive_name_of(last_segment: Option<Seq<char>>) -> Seq<char> {
    match last_segment {
        Some(name) => if name.len() > 0 {
            name
        } else {
            "factorio.tar.xz"@
        },
        None => "factorio.tar.xz"@,
    }
}

/// The last path segment of the address `url`, as `reqwest::Url` reads it;
/// `None` where `url` is no address or has no path segments.
pub uninterp spec fn url_last_segment(url: Seq<char>) -> Option<Seq<char>>;

/// Parses `url` with `reqwest::Url::parse` and returns the last of the
/// parsed address's `path_segments`.
///
/// Not proved, taken from `reqwest`: what is returned depends on the text of
/// `url` alone. Nothing is claimed about which segment that is.
#[verifier::external_body]
fn last_path_segment(url: &str) -> (segment: Option<String>)
    ensures
        owned_segment_text(segment) == url_last_segment(url@),
{
    reqwest::Url::parse(url).ok()?.path_segments()?.last().map(|segment| segment.to_owned())
}

/// The path to write an archive to, in `directory` and under the name that
/// `archive_name_of` gives for a last path segment.
pub fn download_destination_for(directory: &str, last_segment: Option<&str>) -> (destination:
    String)
    ensures
        destination@ == join_of(directory@, archive_name_of(segment_text(last_segment))),
{
    let name = match last_segment {
        Some(name) => if name.unicode_len() > 0 {
            name
        } else {
            "factorio.tar.xz"
        },
        None => "factorio.tar.xz",
    };
    join(directory, name)
}

/// Second step of a download: the path to write the archive to. It lies in
/// `directory` and is named by the last path segment of `url`, the address
/// that served the archive in the end, or `factorio.tar.xz` where that address
/// has no such segment or an empty one.
pub fn download_destination(directory: &str, url: &str) -> (destination: String)
    ensures
        destination@ == join_of(directory@, archive_name_of(url_last_segment(url@))),
{
    match last_path_segment(url) {
        Some(segment) => download_destination_for(directory, Some(segment.as_str())),
        None => download_destination_for(directory, None),
    }
}

/// Whether an archive may be unpacked into a directory, and if not, why.
pub open spec fn extract_check(archive: Seq<char>, archive_is_file: bool, directory_is_file: bool)
    -> Result<(), DownloadError> {
    if !archive_is_file {
        Err(DownloadError::ArchiveNotFile)
    } else if extension_of(archive) != Some("xz"@) {
        Err(DownloadError::ArchiveNotXz)
    } else if extension_of(stem_of(archive)) != Some("tar"@) {
        Err(DownloadError::ArchiveNotTarXz)
    } else if directory_is_file {
        Err(DownloadError::DirectoryIsFile)
    } else {
        Ok(())
    }
}

/// Checks that the `.tar.xz` archive at `archive` may be unpacked into a
/// directory. `archive_is_file` says whether a regular file stands at the
/// archive's path, `directory_is_file` whether one stands at the directory's.
/// On success the caller makes the directory and unpacks the archive into it.
///
/// Fails, in this order, with `ArchiveNotFile`, with `ArchiveNotXz` where the
/// archive's extension is not `xz`, with `ArchiveNotTarXz` where it is not
/// `tar` once `xz` is taken off, and with `DirectoryIsFile`.
pub fn extract_to(archive: &str, archive_is_file: bool, directory_is_file: bool) -> (checked:
    Result<(), DownloadError>)
    ensures
        checked == extract_check(archive@, archive_is_file, directory_is_file),
{
    if !archive_is_file {
        return Err(DownloadError::ArchiveNotFile);
    }
    if !has_extension(archive, "xz") {
        return Err(DownloadError::ArchiveNotXz);
    }
    if !has_extension(without_extension(archive).as_str(), "tar") {
        return Err(DownloadError::ArchiveNotTarXz);
    }
    if directory_is_file {
        return Err(DownloadError::DirectoryIsFile);
    }
    Ok(())
}

/// Whether a directory entry is a `.tar.xz` archive.
pub open spec fn is_archive(entry: EntryView) -> bool {
    entry.is_file && is_tar_xz_path(entry.path)
}

/// The paths of the `.tar.xz` archives among `entries`, in their order.
pub open spec fn archives_of(entries: Seq<EntryView>) -> Seq<Seq<char>> {
    entries.filter(|entry: EntryView| is_archive(entry)).map_values(
        |entry: EntryView| entry.path,
    )
}

/// Adding an entry to a listing adds its path at the end, if it is an archive.
pub proof fn lemma_archives_of_push(entries: Seq<EntryView>, entry: EntryView)
    ensures
        archives_of(entries.push(entry)) == if is_archive(entry) {
            archives_of(entries).push(entry.path)
        } else {
            archives_of(entries)
        },
{
    reveal(Seq::filter);
    let keep = |entry: EntryView| is_archive(entry);
    assert(entries.push(entry).drop_last() =~= entries);
    if is_archive(entry) {
        assert(entries.push(entry).filter(keep) == entries.filter(keep).push(entry));
        assert(archives_of(entries.push(entry)) =~= archives_of(entries).push(entry.path));
    }
}

/// The paths of the `.tar.xz` archives among the entries of a directory: the
/// regular files whose extension is `xz`, and `tar` once that is taken off.
pub fn tar_xz_paths(entries: &Vec<Entry>) -> (archives: Vec<String>)
    ensures
        archives.deep_view() == archives_of(entries.deep_view()),
{
    let mut archives: Vec<String> = Vec::new();
    let mut i: usize = 0;
    proof {
        reveal(Seq::filter);
        assert(entries.deep_view().take(0) =~= Seq::<EntryView>::empty());
        assert(archives.deep_view() =~= archives_of(Seq::<EntryView>::empty()));
    }
    while i < entries.len()
        invariant
            i <= entries.len(),
            archives.deep_view() == archives_of(entries.deep_view().take(i as int)),
        decreases entries.len() - i,
    {
        let entry = &entries[i];
        let ghost before = archives.deep_view();
        proof {
            lemma_archives_of_push(entries.deep_view().take(i as int), entry@);
            assert(entries.deep_view().take(i + 1) =~= entries.deep_view().take(i as int).push(
                entry@,
            ));
        }
        if entry.is_file && is_tar_xz(entry.path.as_str()) {
            archives.push(entry.path.clone());
            assert(archives.deep_view() =~= before.push(entry@.path));
        }
        i += 1;
    }
    assert(entries.deep_view().take(i as int) =~= entries.deep_view());
    archives
}

/// The name of the directory that holds Factorio, under a root directory.
pub const FACTORIO_DIRECTORY: &'static str = "factorio";

/// Where Factorio lives under a root directory, and whether it has to be
/// downloaded and unpacked there before it can be used.
#[derive(Clone, Debug, PartialEq, Eq)]
pub struct FactorioDirectory {
    /// The directory `factorio` in the root.
    pub path: String,
    /// Whether nothing stands there yet.
    pub must_download: bool,
}

/// The Factorio directory under `root`, or `RootMissing`.
pub open spec fn factorio_directory_of(root: Seq<char>, root_exists: bool, factorio_exists: bool)
    -> Result<(Seq<char>, bool), DownloadError> {
    if !root_exists {
        Err(DownloadError::RootMissing)
    } else {
        Ok((join_of(root, "factorio"@), !factorio_exists))
    }
}

/// The Factorio directory under `root`: the directory `factorio` in it.
/// `root_exists` says whether anything stands at `root`, `factorio_exists`
/// whether anything stands at `factorio` in it. Where nothing does, the
/// caller downloads the latest stable headless build into `root` and unpacks
/// it there before it uses the directory.
///
/// Fails with `RootMissing` where `root` does not exist.
pub fn get_factorio_directory(root: &str, root_exists: bool, factorio_exists: bool) -> (found:
    Result<FactorioDirectory, DownloadError>)
    ensures
        match found {
            Ok(dir) => factorio_directory_of(root@, root_exists, factorio_exists) == Ok::<
                (Seq<char>, bool),
                DownloadError,
            >((dir.path@, dir.must_download)),
            Err(error) => factorio_directory_of(root@, root_exists, factorio_exists) == Err::<
                (Seq<char>, bool),
                DownloadError,
            >(error),
        },
{
    if !root_exists {
        return Err(DownloadError::RootMissing);
    }
    Ok(FactorioDirectory { path: join(root, FACTORIO_DIRECTORY), must_download: !factorio_exists })
}

} // verus!
