//! What holds of the options and of the environment line, whatever the
//! directories.

use vstd::prelude::*;
use crate::disk::{ConfigDirectoryView, Kind, ProbeView};
use crate::server_opts::{
    config_state_of, env_of, joined, opts_of, server_options, ConfigState, ServerOpts,
    ServerOptsView,
};
use crate::utils::latest_save_in;

verus! {

/// Without a configuration directory, where nothing stands at its path, and
/// where what stands there is no directory, the options are the single token
/// that tells the server to load its latest save. The state directory changes
/// nothing about that.
pub proof fn lemma_no_config_gives_fallback(opts: ServerOptsView)
    requires
        config_state_of(opts.config_dir) != ConfigState::ConfigPresent,
    ensures
        opts_of(opts) == seq!["--start-server-load-latest"@],
{
}

/// A configuration directory that holds all four files, and no state
/// directory: the options are the flags of the settings, the whitelist, the
/// banlist and the adminlist, in this order, each followed at once by the
/// file's resolved path, and nothing about a save.
pub proof fn lemma_all_four_files(
    config: ConfigDirectoryView,
    settings: Seq<char>,
    whitelist: Seq<char>,
    banlist: Seq<char>,
    adminlist: Seq<char>,
)
    requires
        config.is_dir(),
        config.server_settings == (ProbeView::Found { path: settings, kind: Kind::File }),
        config.server_whitelist == (ProbeView::Found { path: whitelist, kind: Kind::File }),
        config.server_banlist == (ProbeView::Found { path: banlist, kind: Kind::File }),
        config.server_adminlist == (ProbeView::Found { path: adminlist, kind: Kind::File }),
    ensures
        opts_of(ServerOptsView { config_dir: Some(config), state_dir: None }) == seq![
            "--server-settings"@,
            settings,
            "--use-server-whitelist"@,
            "--server-whitelist"@,
            whitelist,
            "--server-banlist"@,
            banlist,
            "--server-adminlist"@,
            adminlist,
        ],
{
    assert(opts_of(ServerOptsView { config_dir: Some(config), state_dir: None }) =~= seq![
        "--server-settings"@,
        settings,
        "--use-server-whitelist"@,
        "--server-whitelist"@,
        whitelist,
        "--server-banlist"@,
        banlist,
        "--server-adminlist"@,
        adminlist,
    ]);
}

/// A configuration directory that holds every file but the whitelist, which
/// is missing or no regular file, and no state directory: the options of the
/// three other files in their order, and no token of the whitelist.
pub proof fn lemma_without_whitelist(
    config: ConfigDirectoryView,
    settings: Seq<char>,
    banlist: Seq<char>,
    adminlist: Seq<char>,
)
    requires
        config.is_dir(),
        config.server_settings == (ProbeView::Found { path: settings, kind: Kind::File }),
        !(config.server_whitelist matches ProbeView::Found { kind: Kind::File, .. }),
        config.server_banlist == (ProbeView::Found { path: banlist, kind: Kind::File }),
        config.server_adminlist == (ProbeView::Found { path: adminlist, kind: Kind::File }),
    ensures
        opts_of(ServerOptsView { config_dir: Some(config), state_dir: None }) == seq![
            "--server-settings"@,
            settings,
            "--server-banlist"@,
            banlist,
            "--server-adminlist"@,
            adminlist,
        ],
{
    assert(opts_of(ServerOptsView { config_dir: Some(config), state_dir: None }) =~= seq![
        "--server-settings"@,
        settings,
        "--server-banlist"@,
        banlist,
        "--server-adminlist"@,
        adminlist,
    ]);
}

/// With a configuration directory and a state directory that holds a save,
/// the options end with `--start-server` and the path of the latest save.
pub proof fn lemma_save_comes_last(opts: ServerOptsView)
    requires
        opts.config_dir matches Some(config) && config.is_dir(),
        opts.state_dir matches Some(state) && state.is_dir() && latest_save_in(state.saves) is Ok,
    ensures
        opts_of(opts) == server_options(opts.config_dir->0) + seq![
            "--start-server"@,
            latest_save_in(opts.state_dir->0.saves)->Ok_0.path,
        ],
{
}

/// With a configuration directory, a state directory without a save to offer
/// adds nothing: the options are those of the configuration directory.
pub proof fn lemma_no_save_adds_nothing(opts: ServerOptsView)
    requires
        opts.config_dir matches Some(config) && config.is_dir(),
        opts.state_dir matches Some(state) ==> !state.is_dir() || latest_save_in(state.saves) is Err,
    ensures
        opts_of(opts) == server_options(opts.config_dir->0),
{
    assert(server_options(opts.config_dir->0) + Seq::<Seq<char>>::empty() =~= server_options(
        opts.config_dir->0,
    ));
}

/// Joining two lists of tokens, neither empty, is joining each and putting
/// one space between the two.
pub proof fn lemma_joined_concat(first: Seq<Seq<char>>, second: Seq<Seq<char>>)
    requires
        first.len() > 0,
        second.len() > 0,
    ensures
        joined(first + second) == joined(first) + seq![' '] + joined(second),
    decreases second.len(),
{
    let all = first + second;
    assert(all.drop_last() =~= first + second.drop_last());
    assert(all.last() == second.last());
    if second.len() == 1 {
        assert(first + second.drop_last() =~= first);
    } else {
        lemma_joined_concat(first, second.drop_last());
        assert(joined(all) =~= joined(first) + seq![' '] + joined(second));
    }
}

/// The environment line for no tokens at all is `FACTORIO_OPTS=''`.
pub proof fn lemma_env_of_nothing()
    ensures
        env_of(Seq::empty()) == "FACTORIO_OPTS=''"@,
{
    reveal_strlit("FACTORIO_OPTS='");
    reveal_strlit("'");
    reveal_strlit("FACTORIO_OPTS=''");
    assert(env_of(Seq::empty()) =~= "FACTORIO_OPTS=''"@);
}

/// The environment line ends with the last token and the closing quote: no
/// space stands between them.
pub proof fn lemma_env_has_no_trailing_space(tokens: Seq<Seq<char>>)
    requires
        tokens.len() > 0,
    ensures
        env_of(tokens).len() >= tokens.last().len() + 1,
        env_of(tokens).skip(env_of(tokens).len() - tokens.last().len() - 1) == tokens.last() + "'"@,
{
    reveal_strlit("'");
    let body = "FACTORIO_OPTS='"@ + joined(tokens);
    let last = tokens.last();
    assert(joined(tokens).skip(joined(tokens).len() - last.len()) =~= last) by {
        if tokens.len() > 1 {
            assert(joined(tokens) == joined(tokens.drop_last()) + seq![' '] + last);
        }
    }
    assert(env_of(tokens).skip(env_of(tokens).len() - last.len() - 1) =~= last + "'"@);
}

/// Building twice from the same record of the two directories gives the same
/// options and the same environment line, character for character: what
/// `get_opts` and `to_env` return depends on nothing else.
pub proof fn lemma_build_is_repeatable(
    first: ServerOpts,
    second: ServerOpts,
    first_opts: Vec<String>,
    second_opts: Vec<String>,
    first_env: String,
    second_env: String,
)
    requires
        first@ == second@,
        first_opts.deep_view() == opts_of(first@),
        second_opts.deep_view() == opts_of(second@),
        first_env@ == env_of(opts_of(first@)),
        second_env@ == env_of(opts_of(second@)),
    ensures
        first_opts.deep_view() == second_opts.deep_view(),
        first_env@ == second_env@,
{
}

} // verus!
