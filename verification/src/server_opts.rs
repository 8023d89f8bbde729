//! The command-line options for the server binary, and the `FACTORIO_OPTS`
//! environment line that carries them to a service unit.

use vstd::prelude::*;
use crate::disk::{
    ConfigDirectory, ConfigDirectoryView, Kind, Probe, ProbeView, StateDirectory,
    StateDirectoryView,
};
use crate::utils::{get_latest_save, latest_save_in};

verus! {

/// The texts of a list of flags.
pub open spec fn flag_texts(flags: Seq<&str>) -> Seq<Seq<char>> {
    flags.map_values(|flag: &str| flag@)
}

/// The options that one file adds: `flags` and then the file's resolved path
/// where a regular file was found, nothing otherwise.
pub open spec fn file_opt(flags: Seq<Seq<char>>, file: ProbeView) -> Seq<Seq<char>> {
    match file {
        ProbeView::Found { path, kind: Kind::File } => flags.push(path),
        _ => Seq::empty(),
    }
}

/// Adds `flags` and the resolved path of `file` to `opts` where `file` was
/// found and is a regular file. Otherwise `opts` stays as it is: a file that
/// is absent, or is no regular file, is passed over without an error.
pub fn add_file_opt(opts: &mut Vec<String>, flags: &[&str], file: &Probe)
    ensures
        final(opts).deep_view() == old(opts).deep_view() + file_opt(flag_texts(flags@), file@),
{
    match file {
        Probe::Found { path, kind: Kind::File } => {
            let mut i: usize = 0;
            while i < flags.len()
                invariant
                    i <= flags.len(),
                    opts.deep_view() == old(opts).deep_view() + flag_texts(flags@).take(i as int),
                decreases flags.len() - i,
            {
                let ghost before = opts.deep_view();
                opts.push(flags[i].to_owned());
                assert(opts.deep_view() =~= before.push(flags@[i as int]@));
                assert(flag_texts(flags@).take(i + 1) =~= flag_texts(flags@).take(i as int).push(
                    flags@[i as int]@,
                ));
                i += 1;
            }
            let ghost before = opts.deep_view();
            opts.push(path.clone());
            assert(opts.deep_view() =~= before.push(path@));
            assert(flag_texts(flags@).take(i as int) =~= flag_texts(flags@));
        },
        _ => {
            assert(opts.deep_view() + Seq::<Seq<char>>::empty() =~= opts.deep_view());
        },
    }
}

/// The options that the configuration directory adds: for the server
/// settings, the whitelist, the banlist and the adminlist, in this order, the
/// file's flags and its resolved path where the file was found.
pub open spec fn server_options(config: ConfigDirectoryView) -> Seq<Seq<char>> {
    file_opt(seq!["--server-settings"@], config.server_settings) + file_opt(
        seq!["--use-server-whitelist"@, "--server-whitelist"@],
        config.server_whitelist,
    ) + file_opt(seq!["--server-banlist"@], config.server_banlist) + file_opt(
        seq!["--server-adminlist"@],
        config.server_adminlist,
    )
}

/// The options that the state directory adds: `--start-server` and the path
/// of the latest save where there is one, nothing otherwise.
pub open spec fn save_options(state: StateDirectoryView) -> Seq<Seq<char>> {
    match latest_save_in(state.saves) {
        Ok(save) => seq!["--start-server"@, save.path],
        Err(_) => Seq::empty(),
    }
}

/// Adds the options of the configuration directory's files to `opts`, in the
/// fixed order: server settings, whitelist, banlist, adminlist.
pub fn add_server_options(opts: &mut Vec<String>, config_dir: &ConfigDirectory)
    ensures
        final(opts).deep_view() == old(opts).deep_view() + server_options(config_dir@),
{
    let settings = ["--server-settings"];
    let whitelist = ["--use-server-whitelist", "--server-whitelist"];
    let banlist = ["--server-banlist"];
    let adminlist = ["--server-adminlist"];
    assert(flag_texts(settings@) =~= seq!["--server-settings"@]);
    assert(flag_texts(whitelist@) =~= seq!["--use-server-whitelist"@, "--server-whitelist"@]);
    assert(flag_texts(banlist@) =~= seq!["--server-banlist"@]);
    assert(flag_texts(adminlist@) =~= seq!["--server-adminlist"@]);
    add_file_opt(opts, &settings, &config_dir.server_settings);
    add_file_opt(opts, &whitelist, &config_dir.server_whitelist);
    add_file_opt(opts, &banlist, &config_dir.server_banlist);
    add_file_opt(opts, &adminlist, &config_dir.server_adminlist);
    assert(opts.deep_view() =~= old(opts).deep_view() + server_options(config_dir@));
}

/// Adds `--start-server` and the path of the latest save under the state
/// directory to `opts`. Where no save can be had, whatever the reason, `opts`
/// stays as it is: the caller decides what a missing save means.
pub fn add_save_options(opts: &mut Vec<String>, state_dir: &StateDirectory)
    ensures
        final(opts).deep_view() == old(opts).deep_view() + save_options(state_dir@),
{
    match get_latest_save(&state_dir.saves) {
        Ok(save) => {
            let ghost before = opts.deep_view();
            opts.push("--start-server".to_owned());
            opts.push(save.path);
            assert(opts.deep_view() =~= before + seq!["--start-server"@, save.path@]);
        },
        Err(_) => {
            assert(opts.deep_view() + Seq::<Seq<char>>::empty() =~= opts.deep_view());
        },
    }
}

/// What is known of the configuration directory when the options are built.
#[derive(Clone, Copy, Debug, PartialEq, Eq, Structural)]
pub enum ConfigState {
    /// The caller was given no configuration directory.
    NoConfig,
    /// Nothing stands at the configuration directory's path.
    ConfigMissing,
    /// Something stands there, but no directory.
    ConfigNotDirectory,
    /// A directory stands there.
    ConfigPresent,
}

/// The state that a configuration directory puts the builder in.
pub open spec fn config_state_of(config_dir: Option<ConfigDirectoryView>) -> ConfigState {
    match config_dir {
        None => ConfigState::NoConfig,
        Some(config) => match config.kind {
            None => ConfigState::ConfigMissing,
            Some(Kind::Directory) => ConfigState::ConfigPresent,
            Some(_) => ConfigState::ConfigNotDirectory,
        },
    }
}

/// The options that a state directory adds where there is one and it is a
/// directory; none otherwise.
pub open spec fn state_options(state_dir: Option<StateDirectoryView>) -> Seq<Seq<char>> {
    match state_dir {
        Some(state) => if state.is_dir() {
            save_options(state)
        } else {
            Seq::empty()
        },
        None => Seq::empty(),
    }
}

/// The options for a server, from what was seen of its two directories.
///
/// Only with a configuration directory that is present are the options those
/// of its files, then those of the state directory. In every other state the
/// server is told to load its latest save and nothing else, whatever the
/// state directory holds.
pub open spec fn opts_of(opts: ServerOptsView) -> Seq<Seq<char>> {
    match config_state_of(opts.config_dir) {
        ConfigState::ConfigPresent => server_options(opts.config_dir->0) + state_options(
            opts.state_dir,
        ),
        _ => seq!["--start-server-load-latest"@],
    }
}

/// `tokens` with one space between each two of them.
pub open spec fn joined(tokens: Seq<Seq<char>>) -> Seq<char>
    decreases tokens.len(),
{
    if tokens.len() == 0 {
        Seq::empty()
    } else if tokens.len() == 1 {
        tokens[0]
    } else {
        joined(tokens.drop_last()) + seq![' '] + tokens.last()
    }
}

/// The environment line for `tokens`: `FACTORIO_OPTS=`, then the tokens
/// between single quotes with one space between each two. A single quote in
/// a token is written as it is.
pub open spec fn env_of(tokens: Seq<Seq<char>>) -> Seq<char> {
    "FACTORIO_OPTS='"@ + joined(tokens) + "'"@
}

/// The environment line for `opts`, as `env_of` defines it.
pub fn opts_to_env(opts: &Vec<String>) -> (env: String)
    ensures
        env@ == env_of(opts.deep_view()),
{
    let mut env = "FACTORIO_OPTS='".to_owned();
    let mut i: usize = 0;
    assert(opts.deep_view().take(0) =~= Seq::<Seq<char>>::empty());
    assert(env@ =~= "FACTORIO_OPTS='"@ + joined(opts.deep_view().take(0)));
    while i < opts.len()
        invariant
            i <= opts.len(),
            env@ == "FACTORIO_OPTS='"@ + joined(opts.deep_view().take(i as int)),
        decreases opts.len() - i,
    {
        let ghost before = opts.deep_view().take(i as int);
        let ghost after = opts.deep_view().take(i + 1);
        assert(after.drop_last() =~= before);
        assert(after.last() == opts[i as int]@);
        if i > 0 {
            env.append(" ");
            proof {
                reveal_strlit(" ");
                assert(" "@ =~= seq![' ']);
            }
        }
        env.append(opts[i].as_str());
        assert(env@ =~= "FACTORIO_OPTS='"@ + joined(after));
        i += 1;
    }
    assert(opts.deep_view().take(i as int) =~= opts.deep_view());
    env.append("'");
    env
}

/// The options for the server, made from what was seen of the configuration
/// directory and the state directory.
#[derive(Clone, Debug, PartialEq, Eq)]
pub struct ServerOpts {
    /// The directory that holds files like `server-settings.json`.
    config_dir: Option<ConfigDirectory>,
    /// The directory that holds directories like `saves`.
    state_dir: Option<StateDirectory>,
}

/// The mathematical value of a [`ServerOpts`].
pub struct ServerOptsView {
    pub config_dir: Option<ConfigDirectoryView>,
    pub state_dir: Option<StateDirectoryView>,
}

/// The mathematical value of a configuration directory that may be absent.
pub open spec fn config_view(dir: Option<ConfigDirectory>) -> Option<ConfigDirectoryView> {
    match dir {
        Some(dir) => Some(dir@),
        None => None,
    }
}

/// The mathematical value of a state directory that may be absent.
pub open spec fn state_view(dir: Option<StateDirectory>) -> Option<StateDirectoryView> {
    match dir {
        Some(dir) => Some(dir@),
        None => None,
    }
}

impl View for ServerOpts {
    type V = ServerOptsView;

    closed spec fn view(&self) -> ServerOptsView {
        ServerOptsView {
            config_dir: config_view(self.config_dir),
            state_dir: state_view(self.state_dir),
        }
    }
}

impl ServerOpts {
    /// Server options for the two directories; `None` where the caller was
    /// given no such directory.
    pub fn new(config_dir: Option<ConfigDirectory>, state_dir: Option<StateDirectory>) -> (opts:
        ServerOpts)
        ensures
            opts@ == (ServerOptsView {
                config_dir: config_view(config_dir),
                state_dir: state_view(state_dir),
            }),
    {
        ServerOpts { config_dir, state_dir }
    }

    /// The options as the `FACTORIO_OPTS` environment line.
    pub fn to_env(&self) -> (env: String)
        ensures
            env@ == env_of(opts_of(self@)),
    {
        opts_to_env(&self.get_opts())
    }

    /// The state that the configuration directory puts the builder in. The
    /// three states without a directory give the same options; they differ in
    /// what a caller may want to tell its user.
    pub fn config_state(&self) -> (state: ConfigState)
        ensures
            state == config_state_of(self@.config_dir),
    {
        match &self.config_dir {
            None => ConfigState::NoConfig,
            Some(config_dir) => match config_dir.kind {
                None => ConfigState::ConfigMissing,
                Some(Kind::Directory) => ConfigState::ConfigPresent,
                Some(_) => ConfigState::ConfigNotDirectory,
            },
        }
    }

    /// The options, each token by itself, in the order in which the server is
    /// to get them.
    pub fn get_opts(&self) -> (opts: Vec<String>)
        ensures
            opts.deep_view() == opts_of(self@),
    {
        let mut opts: Vec<String> = Vec::new();
        assert(opts.deep_view() =~= Seq::<Seq<char>>::empty());
        let config_dir = match &self.config_dir {
            Some(config_dir) if config_dir.is_dir() => config_dir,
            _ => {
                opts.push("--start-server-load-latest".to_owned());
                assert(opts.deep_view() =~= seq!["--start-server-load-latest"@]);
                return opts;
            },
        };
        add_server_options(&mut opts, config_dir);
        assert(opts.deep_view() =~= server_options(config_dir@));
        match &self.state_dir {
            Some(state_dir) if state_dir.is_dir() => {
                add_save_options(&mut opts, state_dir);
            },
            _ => {
                assert(opts.deep_view() + Seq::<Seq<char>>::empty() =~= opts.deep_view());
            },
        }
        opts
    }
}

} // verus!
