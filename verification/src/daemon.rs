//! A headless Factorio server: where it lives, and how it is launched.
//!
//! The functions here plan a launch. They are given what the caller saw on
//! disk and return the binary and the arguments to start it with, or the
//! reason why it cannot be started. Starting the process is the caller's part.

use vstd::prelude::*;
use crate::disk::{
    ConfigDirectory, ConfigDirectoryView, DirectoryView, Kind, Listing, ListingView, Probe,
    ProbeView,
};
use crate::error::{FactorioServerStartError, StartErrorView};
use crate::paths::{ends_with, has_suffix, join, join_of};
use crate::server_opts::{add_file_opt, file_opt, flag_texts, server_options};
use crate::utils::{latest_save_at, latest_save_in};

verus! {

/// The directories that the service manager assigned to the unit, as far as
/// it assigned any.
#[derive(Clone, Debug, PartialEq, Eq)]
pub struct ServiceDirectories {
    /// The first state directory.
    pub state_dir: Option<String>,
    /// The first configuration directory.
    pub config_dir: Option<String>,
    /// The first cache directory.
    pub cache_dir: Option<String>,
}

/// The text of a path that may be absent.
pub open spec fn text_of(path: Option<String>) -> Option<Seq<char>> {
    match path {
        Some(path) => Some(path@),
        None => None,
    }
}

/// A process to start: the binary and its arguments in order.
#[derive(Clone, Debug, PartialEq, Eq)]
pub struct Launch {
    pub binary: String,
    pub args: Vec<String>,
}

/// The mathematical value of a [`Launch`].
pub struct LaunchView {
    pub binary: Seq<char>,
    pub args: Seq<Seq<char>>,
}

impl View for Launch {
    type V = LaunchView;

    open spec fn view(&self) -> LaunchView {
        LaunchView { binary: self.binary@, args: self.args.deep_view() }
    }
}

impl Launch {
    /// The error to report where the process of this launch could not be
    /// started: `StartFailed` with the binary and the reason.
    pub fn failed(&self, source: String) -> (error: FactorioServerStartError)
        ensures
            error@ == (StartErrorView::StartFailed { path: self.binary@, source: source@ }),
    {
        FactorioServerStartError::StartFailed { path: self.binary.clone(), source }
    }
}

/// What a caller saw on disk before starting a server.
#[derive(Clone, Debug, PartialEq, Eq)]
pub struct ServerFiles {
    /// Whether anything stands at the server's Factorio directory.
    pub factorio_dir_exists: bool,
    /// What resolving the server's `binary_path` gave.
    pub binary: Probe,
    /// The server's configuration directory.
    pub config_dir: ConfigDirectory,
    /// What resolving the server's `saves_dir` gave.
    pub saves: Probe,
    /// What listing the server's `saves_dir` gave.
    pub save_files: Listing,
}

/// The mathematical value of a [`ServerFiles`].
pub struct ServerFilesView {
    pub factorio_dir_exists: bool,
    pub binary: ProbeView,
    pub config_dir: ConfigDirectoryView,
    pub saves: ProbeView,
    pub save_files: ListingView,
}

impl View for ServerFiles {
    type V = ServerFilesView;

    open spec fn view(&self) -> ServerFilesView {
        ServerFilesView {
            factorio_dir_exists: self.factorio_dir_exists,
            binary: self.binary@,
            config_dir: self.config_dir@,
            saves: self.saves@,
            save_files: self.save_files@,
        }
    }
}

/// A headless Factorio server.
#[derive(Clone, Debug, PartialEq, Eq)]
pub struct FactorioServer {
    /// The directory that holds the Factorio binary and data.
    factorio_dir: String,
    /// The directory that holds saves and other generated content.
    state_dir: String,
    /// The directory that holds the JSON files that configure the server.
    config_dir: String,
}

/// The mathematical value of a [`FactorioServer`].
pub struct FactorioServerView {
    pub factorio_dir: Seq<char>,
    pub state_dir: Seq<char>,
    pub config_dir: Seq<char>,
}

impl View for FactorioServer {
    type V = FactorioServerView;

    closed spec fn view(&self) -> FactorioServerView {
        FactorioServerView {
            factorio_dir: self.factorio_dir@,
            state_dir: self.state_dir@,
            config_dir: self.config_dir@,
        }
    }
}

/// The server that `try_new` makes, or `PathNotFound` with the directory as
/// the caller named it where that directory could not be resolved. The state
/// and configuration directories are those of the service manager, or
/// `var/lib/factoriod` and `etc/factoriod` where it assigned none.
pub open spec fn new_server(
    factorio_dir: Seq<char>,
    resolved: ProbeView,
    state_dir: Option<Seq<char>>,
    config_dir: Option<Seq<char>>,
) -> Result<FactorioServerView, StartErrorView> {
    match resolved {
        ProbeView::Missing => Err(StartErrorView::PathNotFound(factorio_dir)),
        ProbeView::Found { path, .. } => Ok(
            FactorioServerView {
                factorio_dir: path,
                state_dir: match state_dir {
                    Some(dir) => dir,
                    None => "var/lib/factoriod"@,
                },
                config_dir: match config_dir {
                    Some(dir) => dir,
                    None => "etc/factoriod"@,
                },
            },
        ),
    }
}

/// Where the server's binary is looked for.
pub open spec fn binary_path_of(server: FactorioServerView) -> Seq<char> {
    join_of(server.factorio_dir, "bin/x64/factorio"@)
}

/// Where the server's saves are looked for.
pub open spec fn saves_dir_of(server: FactorioServerView) -> Seq<char> {
    join_of(server.state_dir, "saves"@)
}

/// The options that a server takes from its configuration directory: those of
/// its files where it is a directory, none otherwise.
pub open spec fn config_args(config_dir: ConfigDirectoryView) -> Seq<Seq<char>> {
    if config_dir.is_dir() {
        server_options(config_dir)
    } else {
        Seq::empty()
    }
}

/// The arguments that name the save to start with: the latest save of the
/// resolved saves directory. A server cannot start without one: where the
/// saves directory cannot be resolved or is no directory this is
/// `PathNotFound`, and where it holds no save, `NoSaveFound`.
pub open spec fn save_args(
    server: FactorioServerView,
    saves: ProbeView,
    save_files: ListingView,
) -> Result<Seq<Seq<char>>, StartErrorView> {
    match saves {
        ProbeView::Found { path, kind: Kind::Directory } => match latest_save_in(
            DirectoryView { path, listing: save_files },
        ) {
            Ok(save) => Ok(seq!["--start-server"@, save.path]),
            Err(error) => Err(error),
        },
        ProbeView::Found { path, .. } => Err(StartErrorView::PathNotFound(path)),
        ProbeView::Missing => Err(StartErrorView::PathNotFound(saves_dir_of(server))),
    }
}

/// How to start the server, or why it cannot be started.
pub open spec fn start_plan(server: FactorioServerView, seen: ServerFilesView) -> Result<
    LaunchView,
    StartErrorView,
> {
    if !seen.factorio_dir_exists {
        Err(StartErrorView::PathNotFound(server.factorio_dir))
    } else {
        match seen.binary {
            ProbeView::Missing => Err(StartErrorView::PathNotFound(server.factorio_dir)),
            ProbeView::Found { path, .. } => match save_args(server, seen.saves, seen.save_files) {
                Ok(save) => Ok(LaunchView { binary: path, args: config_args(seen.config_dir) + save }),
                Err(error) => Err(error),
            },
        }
    }
}

/// The file name of a save called `name`: `name` itself where it ends with
/// `.zip`, and `name.zip` otherwise.
pub open spec fn save_file_name_of(name: Seq<char>) -> Seq<char> {
    if ends_with(name, ".zip"@) {
        name
    } else {
        name + ".zip"@
    }
}

/// The options that a new map takes from the configuration directory: the
/// map generator's settings and the map settings, each where it was found.
pub open spec fn map_args(config_dir: ConfigDirectoryView) -> Seq<Seq<char>> {
    if config_dir.is_dir() {
        file_opt(seq!["--map-gen-settings"@], config_dir.map_gen_settings) + file_opt(
            seq!["--map-settings"@],
            config_dir.map_settings,
        )
    } else {
        Seq::empty()
    }
}

/// The directory that has to exist before a save is created, or
/// `PathNotFound` with the Factorio directory where the binary is missing.
pub open spec fn new_save_directory(server: FactorioServerView, binary: ProbeView) -> Result<
    Seq<char>,
    StartErrorView,
> {
    match binary {
        ProbeView::Missing => Err(StartErrorView::PathNotFound(server.factorio_dir)),
        ProbeView::Found { .. } => Ok(saves_dir_of(server)),
    }
}

/// How to create a save called `name`, or why it cannot be created. `created`
/// is the outcome of making the saves directory.
pub open spec fn new_save_plan(
    server: FactorioServerView,
    name: Seq<char>,
    binary: ProbeView,
    created: Result<(), Seq<char>>,
    config_dir: ConfigDirectoryView,
) -> Result<LaunchView, StartErrorView> {
    match binary {
        ProbeView::Missing => Err(StartErrorView::PathNotFound(server.factorio_dir)),
        ProbeView::Found { path, .. } => match created {
            Err(source) => Err(StartErrorView::StartFailed { path: saves_dir_of(server), source }),
            Ok(_) => Ok(
                LaunchView {
                    binary: path,
                    args: seq![
                        "--create"@,
                        join_of(saves_dir_of(server), save_file_name_of(name)),
                    ] + map_args(config_dir),
                },
            ),
        },
    }
}

/// The outcome of making a directory, with the reason of a failure as text.
pub open spec fn outcome_of(created: Result<(), String>) -> Result<(), Seq<char>> {
    match created {
        Ok(_) => Ok(()),
        Err(source) => Err(source@),
    }
}

/// The file name of a save called `name`, as `save_file_name_of` defines it.
pub fn save_file_name(name: &str) -> (file_name: String)
    ensures
        file_name@ == save_file_name_of(name@),
{
    if has_suffix(name, ".zip") {
        name.to_owned()
    } else {
        name.to_owned().concat(".zip")
    }
}

impl FactorioServer {
    /// A server for the Factorio directory `factorio_dir`, which the caller
    /// resolved to `resolved`, with the state and configuration directories
    /// of `dirs`.
    ///
    /// Fails with `PathNotFound` where `factorio_dir` could not be resolved.
    pub fn try_new(factorio_dir: &str, resolved: &Probe, dirs: &ServiceDirectories) -> (server:
        Result<FactorioServer, FactorioServerStartError>)
        ensures
            match server {
                Ok(server) => new_server(
                    factorio_dir@,
                    resolved@,
                    text_of(dirs.state_dir),
                    text_of(dirs.config_dir),
                ) == Ok::<FactorioServerView, StartErrorView>(server@),
                Err(error) => new_server(
                    factorio_dir@,
                    resolved@,
                    text_of(dirs.state_dir),
                    text_of(dirs.config_dir),
                ) == Err::<FactorioServerView, StartErrorView>(error@),
            },
    {
        match resolved {
            Probe::Missing => Err(FactorioServerStartError::PathNotFound(factorio_dir.to_owned())),
            Probe::Found { path, .. } => Ok(
                FactorioServer {
                    factorio_dir: path.clone(),
                    state_dir: match &dirs.state_dir {
                        Some(dir) => dir.clone(),
                        None => "var/lib/factoriod".to_owned(),
                    },
                    config_dir: match &dirs.config_dir {
                        Some(dir) => dir.clone(),
                        None => "etc/factoriod".to_owned(),
                    },
                },
            ),
        }
    }

    /// The directory that holds the Factorio binary and data.
    pub fn factorio_dir(&self) -> (dir: &str)
        ensures
            dir@ == self@.factorio_dir,
    {
        self.factorio_dir.as_str()
    }

    /// The directory that holds saves and other generated content.
    pub fn state_dir(&self) -> (dir: &str)
        ensures
            dir@ == self@.state_dir,
    {
        self.state_dir.as_str()
    }

    /// The directory that holds the JSON files that configure the server.
    pub fn config_dir(&self) -> (dir: &str)
        ensures
            dir@ == self@.config_dir,
    {
        self.config_dir.as_str()
    }

    /// Where the server's binary is looked for: `bin/x64/factorio` in the
    /// Factorio directory.
    pub fn binary_path(&self) -> (path: String)
        ensures
            path@ == binary_path_of(self@),
    {
        join(self.factorio_dir.as_str(), "bin/x64/factorio")
    }

    /// Where the server's saves are looked for: `saves` in the state directory.
    pub fn saves_dir(&self) -> (path: String)
        ensures
            path@ == saves_dir_of(self@),
    {
        join(self.state_dir.as_str(), "saves")
    }

    /// Plans the start of the server: the resolved binary, the options of the
    /// configuration directory, then `--start-server` and the latest save.
    ///
    /// Fails with `PathNotFound` and the Factorio directory where that
    /// directory or the binary in it is missing, and with the error of the
    /// save selection where no save can be had.
    pub fn start(&self, seen: &ServerFiles) -> (plan: Result<Launch, FactorioServerStartError>)
        ensures
            match plan {
                Ok(launch) => start_plan(self@, seen@) == Ok::<LaunchView, StartErrorView>(launch@),
                Err(error) => start_plan(self@, seen@) == Err::<LaunchView, StartErrorView>(error@),
            },
    {
        if !seen.factorio_dir_exists {
            return Err(FactorioServerStartError::PathNotFound(self.factorio_dir.clone()));
        }
        let binary = match &seen.binary {
            Probe::Missing => {
                return Err(FactorioServerStartError::PathNotFound(self.factorio_dir.clone()));
            },
            Probe::Found { path, .. } => path.clone(),
        };
        let mut args: Vec<String> = Vec::new();
        assert(args.deep_view() =~= Seq::<Seq<char>>::empty());
        self.add_server_options(&mut args, &seen.config_dir);
        assert(args.deep_view() =~= config_args(seen.config_dir@));
        match self.add_save(&mut args, &seen.saves, &seen.save_files) {
            Ok(()) => Ok(Launch { binary, args }),
            Err(error) => Err(error),
        }
    }

    /// First step of creating a save: the directory that the caller has to
    /// make, with its parents, before `new_save` plans the rest.
    ///
    /// Fails with `PathNotFound` and the Factorio directory where the binary
    /// is missing; nothing is to be made then.
    pub fn new_save_dir(&self, binary: &Probe) -> (dir: Result<String, FactorioServerStartError>)
        ensures
            match dir {
                Ok(dir) => new_save_directory(self@, binary@) == Ok::<Seq<char>, StartErrorView>(
                    dir@,
                ),
                Err(error) => new_save_directory(self@, binary@) == Err::<
                    Seq<char>,
                    StartErrorView,
                >(error@),
            },
    {
        match binary {
            Probe::Missing => Err(FactorioServerStartError::PathNotFound(self.factorio_dir.clone())),
            Probe::Found { .. } => Ok(self.saves_dir()),
        }
    }

    /// Plans the creation of a save called `name`: the resolved binary with
    /// `--create` and the save's path in the saves directory, then the map
    /// generator's settings and the map settings where the configuration
    /// directory holds them. `created` is the outcome of making the directory
    /// that `new_save_dir` named.
    ///
    /// Fails with `PathNotFound` and the Factorio directory where the binary
    /// is missing, and with `StartFailed` and the saves directory where that
    /// directory could not be made.
    pub fn new_save(
        &self,
        name: &str,
        binary: &Probe,
        created: &Result<(), String>,
        config_dir: &ConfigDirectory,
    ) -> (plan: Result<Launch, FactorioServerStartError>)
        ensures
            match plan {
                Ok(launch) => new_save_plan(
                    self@,
                    name@,
                    binary@,
                    outcome_of(*created),
                    config_dir@,
                ) == Ok::<LaunchView, StartErrorView>(launch@),
                Err(error) => new_save_plan(
                    self@,
                    name@,
                    binary@,
                    outcome_of(*created),
                    config_dir@,
                ) == Err::<LaunchView, StartErrorView>(error@),
            },
    {
        let binary = match binary {
            Probe::Missing => {
                return Err(FactorioServerStartError::PathNotFound(self.factorio_dir.clone()));
            },
            Probe::Found { path, .. } => path.clone(),
        };
        let saves_dir = self.saves_dir();
        if let Err(source) = created {
            return Err(
                FactorioServerStartError::StartFailed { path: saves_dir, source: source.clone() },
            );
        }
        let save_file = join(saves_dir.as_str(), save_file_name(name).as_str());
        let mut args: Vec<String> = Vec::new();
        args.push("--create".to_owned());
        args.push(save_file);
        assert(args.deep_view() =~= seq![
            "--create"@,
            join_of(saves_dir_of(self@), save_file_name_of(name@)),
        ]);
        if config_dir.is_dir() {
            let map_gen_settings = ["--map-gen-settings"];
            let map_settings = ["--map-settings"];
            assert(flag_texts(map_gen_settings@) =~= seq!["--map-gen-settings"@]);
            assert(flag_texts(map_settings@) =~= seq!["--map-settings"@]);
            let ghost before = args.deep_view();
            add_file_opt(&mut args, &map_gen_settings, &config_dir.map_gen_settings);
            add_file_opt(&mut args, &map_settings, &config_dir.map_settings);
            assert(args.deep_view() =~= before + map_args(config_dir@));
        } else {
            assert(args.deep_view() + Seq::<Seq<char>>::empty() =~= args.deep_view());
        }
        Ok(Launch { binary, args })
    }

    /// Adds the options of the configuration directory's files to `args`:
    /// server settings, whitelist, banlist, adminlist, each where the file
    /// was found. Adds nothing where the configuration directory is none.
    pub fn add_server_options(&self, args: &mut Vec<String>, config_dir: &ConfigDirectory)
        ensures
            final(args).deep_view() == old(args).deep_view() + config_args(config_dir@),
    {
        if !config_dir.is_dir() {
            assert(args.deep_view() + Seq::<Seq<char>>::empty() =~= args.deep_view());
            return ;
        }
        crate::server_opts::add_server_options(args, config_dir);
    }

    /// Adds `--start-server` and the latest save to `args`.
    ///
    /// Fails, and leaves `args` as they are, where the saves directory is
    /// missing or is no directory (`PathNotFound`) and where no save can be
    /// selected from it.
    pub fn add_save(&self, args: &mut Vec<String>, saves: &Probe, save_files: &Listing) -> (added:
        Result<(), FactorioServerStartError>)
        ensures
            match added {
                Ok(_) => save_args(self@, saves@, save_files@) is Ok && final(args).deep_view()
                    == old(args).deep_view() + save_args(self@, saves@, save_files@)->Ok_0,
                Err(error) => save_args(self@, saves@, save_files@) == Err::<
                    Seq<Seq<char>>,
                    StartErrorView,
                >(error@) && final(args).deep_view() == old(args).deep_view(),
            },
    {
        match saves {
            Probe::Found { path, kind: Kind::Directory } => {
                match latest_save_at(path.as_str(), save_files) {
                    Ok(latest_save) => {
                        let ghost before = args.deep_view();
                        args.push("--start-server".to_owned());
                        args.push(latest_save.path);
                        assert(args.deep_view() =~= before + seq![
                            "--start-server"@,
                            latest_save.path@,
                        ]);
                        Ok(())
                    },
                    Err(error) => Err(error),
                }
            },
            Probe::Found { path, .. } => Err(FactorioServerStartError::PathNotFound(path.clone())),
            Probe::Missing => Err(FactorioServerStartError::PathNotFound(self.saves_dir())),
        }
    }
}

} // verus!
