//! What a caller saw on disk, as plain values.
//!
//! Nothing here reads the disk. A caller resolves paths and lists directories,
//! writes down what it found in these types, and the rest of the library
//! decides on that record alone.

use vstd::prelude::*;

verus! {

/// What stands at a path.
#[derive(Clone, Copy, Debug, PartialEq, Eq, Structural)]
pub enum Kind {
    /// A regular file.
    File,
    /// A directory.
    Directory,
    /// Anything else.
    Other,
}

/// The outcome of resolving a path to its canonical, absolute form.
#[derive(Clone, Debug, PartialEq, Eq)]
pub enum Probe {
    /// The path could not be resolved.
    Missing,
    /// The path resolved to `path`, where something of kind `kind` stands.
    Found { path: String, kind: Kind },
}

/// The mathematical value of a [`Probe`].
pub enum ProbeView {
    Missing,
    Found { path: Seq<char>, kind: Kind },
}

impl View for Probe {
    type V = ProbeView;

    open spec fn view(&self) -> ProbeView {
        match *self {
            Probe::Missing => ProbeView::Missing,
            Probe::Found { path, kind } => ProbeView::Found { path: path@, kind },
        }
    }
}

/// One child of a directory that was listed.
#[derive(Clone, Debug, PartialEq, Eq)]
pub struct Entry {
    /// The child's path: the listed directory's resolved path and the child's name.
    pub path: String,
    /// Whether the child is a regular file; `false` where that could not be read.
    pub is_file: bool,
    /// When the child was last modified, in nanoseconds since the Unix epoch;
    /// `None` where that could not be read.
    pub modified: Option<u128>,
}

/// The mathematical value of an [`Entry`].
pub struct EntryView {
    pub path: Seq<char>,
    pub is_file: bool,
    pub modified: Option<u128>,
}

impl View for Entry {
    type V = EntryView;

    open spec fn view(&self) -> EntryView {
        EntryView { path: self.path@, is_file: self.is_file, modified: self.modified }
    }
}

impl DeepView for Entry {
    type V = EntryView;

    open spec fn deep_view(&self) -> EntryView {
        self@
    }
}

/// The outcome of resolving a directory and listing its immediate children.
#[derive(Clone, Debug, PartialEq, Eq)]
pub enum Listing {
    /// The directory's path could not be resolved.
    Unresolved,
    /// The path resolved to `resolved`, but listing it failed with `source`.
    Unreadable { resolved: String, source: String },
    /// The children that could be read, in the order the file system gave them.
    Entries(Vec<Entry>),
}

/// The mathematical value of a [`Listing`].
pub enum ListingView {
    Unresolved,
    Unreadable { resolved: Seq<char>, source: Seq<char> },
    Entries(Seq<EntryView>),
}

impl View for Listing {
    type V = ListingView;

    open spec fn view(&self) -> ListingView {
        match *self {
            Listing::Unresolved => ListingView::Unresolved,
            Listing::Unreadable { resolved, source } => ListingView::Unreadable {
                resolved: resolved@,
                source: source@,
            },
            Listing::Entries(entries) => ListingView::Entries(entries.deep_view()),
        }
    }
}

/// A directory as a caller named it, and what listing it gave.
#[derive(Clone, Debug, PartialEq, Eq)]
pub struct Directory {
    /// The path as the caller named it.
    pub path: String,
    /// What resolving and listing that path gave.
    pub listing: Listing,
}

/// The mathematical value of a [`Directory`].
pub struct DirectoryView {
    pub path: Seq<char>,
    pub listing: ListingView,
}

impl View for Directory {
    type V = DirectoryView;

    open spec fn view(&self) -> DirectoryView {
        DirectoryView { path: self.path@, listing: self.listing@ }
    }
}

/// The name of the server settings in the configuration directory.
pub const SERVER_SETTINGS_FILE: &'static str = "server-settings.json";

/// The name of the whitelist in the configuration directory.
pub const SERVER_WHITELIST_FILE: &'static str = "server-whitelist.json";

/// The name of the banlist in the configuration directory.
pub const SERVER_BANLIST_FILE: &'static str = "server-banlist.json";

/// The name of the adminlist in the configuration directory.
pub const SERVER_ADMINLIST_FILE: &'static str = "server-adminlist.json";

/// The name of the map generator's settings in the configuration directory.
pub const MAP_GEN_SETTINGS_FILE: &'static str = "map-gen-settings.json";

/// The name of the map settings in the configuration directory.
pub const MAP_SETTINGS_FILE: &'static str = "map-settings.json";

/// The name of the directory of saves in the state directory.
pub const SAVES_DIRECTORY: &'static str = "saves";

/// The configuration directory as a caller named it, and what stands at the
/// files that the server reads from it. Each file is looked for under the
/// directory's path and the name that the field's comment gives.
#[derive(Clone, Debug, PartialEq, Eq)]
pub struct ConfigDirectory {
    /// The path as the caller named it.
    pub path: String,
    /// What stands at that path; `None` where nothing does.
    pub kind: Option<Kind>,
    /// `server-settings.json`
    pub server_settings: Probe,
    /// `server-whitelist.json`
    pub server_whitelist: Probe,
    /// `server-banlist.json`
    pub server_banlist: Probe,
    /// `server-adminlist.json`
    pub server_adminlist: Probe,
    /// `map-gen-settings.json`
    pub map_gen_settings: Probe,
    /// `map-settings.json`
    pub map_settings: Probe,
}

/// The mathematical value of a [`ConfigDirectory`].
pub struct ConfigDirectoryView {
    pub path: Seq<char>,
    pub kind: Option<Kind>,
    pub server_settings: ProbeView,
    pub server_whitelist: ProbeView,
    pub server_banlist: ProbeView,
    pub server_adminlist: ProbeView,
    pub map_gen_settings: ProbeView,
    pub map_settings: ProbeView,
}

impl View for ConfigDirectory {
    type V = ConfigDirectoryView;

    open spec fn view(&self) -> ConfigDirectoryView {
        ConfigDirectoryView {
            path: self.path@,
            kind: self.kind,
            server_settings: self.server_settings@,
            server_whitelist: self.server_whitelist@,
            server_banlist: self.server_banlist@,
            server_adminlist: self.server_adminlist@,
            map_gen_settings: self.map_gen_settings@,
            map_settings: self.map_settings@,
        }
    }
}

impl ConfigDirectoryView {
    /// Whether a directory stands at the path.
    pub open spec fn is_dir(self) -> bool {
        self.kind == Some(Kind::Directory)
    }
}

impl ConfigDirectory {
    /// A configuration directory in which none of the files was found.
    pub fn new(path: String, kind: Option<Kind>) -> (dir: ConfigDirectory)
        ensures
            dir@ == (ConfigDirectoryView {
                path: path@,
                kind,
                server_settings: ProbeView::Missing,
                server_whitelist: ProbeView::Missing,
                server_banlist: ProbeView::Missing,
                server_adminlist: ProbeView::Missing,
                map_gen_settings: ProbeView::Missing,
                map_settings: ProbeView::Missing,
            }),
    {
        ConfigDirectory {
            path,
            kind,
            server_settings: Probe::Missing,
            server_whitelist: Probe::Missing,
            server_banlist: Probe::Missing,
            server_adminlist: Probe::Missing,
            map_gen_settings: Probe::Missing,
            map_settings: Probe::Missing,
        }
    }

    /// Whether a directory stands at the path.
    pub fn is_dir(&self) -> (b: bool)
        ensures
            b == self@.is_dir(),
    {
        match self.kind {
            Some(Kind::Directory) => true,
            _ => false,
        }
    }
}

/// The state directory as a caller named it, and its `saves` subdirectory.
#[derive(Clone, Debug, PartialEq, Eq)]
pub struct StateDirectory {
    /// The path as the caller named it.
    pub path: String,
    /// What stands at that path; `None` where nothing does.
    pub kind: Option<Kind>,
    /// The subdirectory `saves`, named by the state directory's path and `saves`.
    pub saves: Directory,
}

/// The mathematical value of a [`StateDirectory`].
pub struct StateDirectoryView {
    pub path: Seq<char>,
    pub kind: Option<Kind>,
    pub saves: DirectoryView,
}

impl StateDirectoryView {
    /// Whether a directory stands at the path.
    pub open spec fn is_dir(self) -> bool {
        self.kind == Some(Kind::Directory)
    }
}

impl View for StateDirectory {
    type V = StateDirectoryView;

    open spec fn view(&self) -> StateDirectoryView {
        StateDirectoryView { path: self.path@, kind: self.kind, saves: self.saves@ }
    }
}

impl StateDirectory {
    /// Whether a directory stands at the path.
    pub fn is_dir(&self) -> (b: bool)
        ensures
            b == self@.is_dir(),
    {
        match self.kind {
            Some(Kind::Directory) => true,
            _ => false,
        }
    }
}

} // verus!
