use factoriod::disk::{
    ConfigDirectory, Directory, Entry, Kind, Listing, Probe, StateDirectory,
};
use factoriod::server_opts::{
    add_file_opt, add_save_options, add_server_options, opts_to_env, ConfigState,
};
use factoriod::ServerOpts;

fn found_file(path: &str) -> Probe {
    Probe::Found { path: path.to_string(), kind: Kind::File }
}

/// A configuration directory at `path` that holds the four server files.
fn config_dir_with_all_files(path: &str) -> ConfigDirectory {
    let mut dir = ConfigDirectory::new(path.to_string(), Some(Kind::Directory));
    dir.server_settings = found_file(&format!("{}/server-settings.json", path));
    dir.server_whitelist = found_file(&format!("{}/server-whitelist.json", path));
    dir.server_banlist = found_file(&format!("{}/server-banlist.json", path));
    dir.server_adminlist = found_file(&format!("{}/server-adminlist.json", path));
    dir
}

/// A state directory at `path` whose `saves` holds the files named, modified
/// one second after another.
fn state_dir_with_saves(path: &str, names: &[&str]) -> StateDirectory {
    let saves = format!("{}/saves", path);
    let entries = names
        .iter()
        .enumerate()
        .map(|(i, name)| Entry {
            path: format!("{}/{}", saves, name),
            is_file: true,
            modified: Some((1_700_000_000 + i as u128) * 1_000_000_000),
        })
        .collect();
    StateDirectory {
        path: path.to_string(),
        kind: Some(Kind::Directory),
        saves: Directory { path: saves, listing: Listing::Entries(entries) },
    }
}

fn strings(tokens: &[&str]) -> Vec<String> {
    tokens.iter().map(|token| token.to_string()).collect()
}

#[test]
fn server_opts_test_add_file_opt_doesnt_exist() {
    let mut opts = Vec::new();
    // nothing stands at /path/to/file
    add_file_opt(&mut opts, &["--server-settings"], &Probe::Missing);
    assert_eq!(opts.len(), 0);
}

#[test]
fn server_opts_test_add_file_opt() {
    let mut opts = Vec::new();
    let file = found_file("/tmp/.tmpAbCdEf");
    add_file_opt(&mut opts, &["--server-settings"], &file);
    assert_eq!(opts, vec!["--server-settings", "/tmp/.tmpAbCdEf"]);
}

#[test]
fn add_file_opt_passes_over_what_is_no_regular_file() {
    let mut opts = strings(&["--before"]);
    add_file_opt(
        &mut opts,
        &["--server-settings"],
        &Probe::Found { path: "/etc/factoriod/server-settings.json".to_string(), kind: Kind::Directory },
    );
    add_file_opt(
        &mut opts,
        &["--server-settings"],
        &Probe::Found { path: "/etc/factoriod/server-settings.json".to_string(), kind: Kind::Other },
    );
    assert_eq!(opts, vec!["--before"]);
}

#[test]
fn add_file_opt_appends_after_what_is_there() {
    let mut opts = strings(&["--before"]);
    add_file_opt(
        &mut opts,
        &["--use-server-whitelist", "--server-whitelist"],
        &found_file("/etc/factoriod/server-whitelist.json"),
    );
    assert_eq!(
        opts,
        vec![
            "--before",
            "--use-server-whitelist",
            "--server-whitelist",
            "/etc/factoriod/server-whitelist.json"
        ]
    );
}

#[test]
fn test_add_server_options() {
    let mut opts = Vec::new();
    let dir = config_dir_with_all_files("/etc/factoriod");
    add_server_options(&mut opts, &dir);
    let actual = opts.join(" ");
    assert!(actual.contains("--server-settings /etc/factoriod/server-settings.json"));
    assert!(actual
        .contains("--use-server-whitelist --server-whitelist /etc/factoriod/server-whitelist.json"));
    assert!(actual.contains("--server-banlist /etc/factoriod/server-banlist.json"));
    assert!(actual.contains("--server-adminlist /etc/factoriod/server-adminlist.json"));
}

#[test]
fn test_add_save_options() {
    let mut opts = Vec::new();
    let state_dir = state_dir_with_saves("/var/lib/factoriod", &["latest_save.zip"]);
    add_save_options(&mut opts, &state_dir);
    let actual = opts.join(" ");
    assert!(actual.contains("--start-server /var/lib/factoriod/saves/latest_save.zip"));
    assert_eq!(opts, vec!["--start-server", "/var/lib/factoriod/saves/latest_save.zip"]);
}

#[test]
fn add_save_options_without_a_save_adds_nothing() {
    let mut opts = strings(&["--before"]);
    add_save_options(&mut opts, &state_dir_with_saves("/var/lib/factoriod", &[]));
    assert_eq!(opts, vec!["--before"]);

    // the saves directory is missing
    let state_dir = StateDirectory {
        path: "/var/lib/factoriod".to_string(),
        kind: Some(Kind::Directory),
        saves: Directory {
            path: "/var/lib/factoriod/saves".to_string(),
            listing: Listing::Unresolved,
        },
    };
    add_save_options(&mut opts, &state_dir);
    assert_eq!(opts, vec!["--before"]);
}

#[test]
fn server_opts_test_server_opts_to_env_none() {
    let server_opts = ServerOpts::new(None, None);
    assert_eq!(server_opts.to_env(), "FACTORIO_OPTS='--start-server-load-latest'");
}

#[test]
fn server_opts_test_server_opts_to_env_not_exist() {
    let server_opts =
        ServerOpts::new(Some(ConfigDirectory::new("/path/to/config".to_string(), None)), None);
    assert_eq!(server_opts.to_env(), "FACTORIO_OPTS='--start-server-load-latest'");
}

#[test]
fn server_opts_test_server_opts_to_env_not_dir() {
    let file = ConfigDirectory::new("/tmp/.tmpAbCdEf".to_string(), Some(Kind::File));
    let server_opts = ServerOpts::new(Some(file), None);
    assert_eq!(server_opts.to_env(), "FACTORIO_OPTS='--start-server-load-latest'");
}

#[test]
fn server_opts_test_server_opts_to_env() {
    let dir = config_dir_with_all_files("/tmp/.tmpXyZ");
    let server_opts = ServerOpts::new(Some(dir), None);
    let actual = server_opts.to_env();
    assert!(actual.starts_with("FACTORIO_OPTS='"));
    assert!(actual.ends_with("'"));
    assert!(actual.contains(&format!("--server-settings {}", "/tmp/.tmpXyZ/server-settings.json")));
    assert!(actual.contains(&format!(
        "--use-server-whitelist --server-whitelist {}",
        "/tmp/.tmpXyZ/server-whitelist.json"
    )));
    assert!(actual.contains(&format!("--server-banlist {}", "/tmp/.tmpXyZ/server-banlist.json")));
    assert!(actual.contains(&format!("--server-adminlist {}", "/tmp/.tmpXyZ/server-adminlist.json")));
}

#[test]
fn build_without_directories_is_the_fallback_alone() {
    assert_eq!(ServerOpts::new(None, None).get_opts(), vec!["--start-server-load-latest"]);
}

#[test]
fn a_missing_config_directory_overrides_the_state_directory() {
    let state = state_dir_with_saves("/var/lib/factoriod", &["a.zip"]);
    for config in [
        None,
        Some(ConfigDirectory::new("/etc/factoriod".to_string(), None)),
        Some(ConfigDirectory::new("/etc/factoriod".to_string(), Some(Kind::File))),
        Some(ConfigDirectory::new("/etc/factoriod".to_string(), Some(Kind::Other))),
    ] {
        let opts = ServerOpts::new(config, Some(state.clone()));
        assert_eq!(opts.get_opts(), vec!["--start-server-load-latest"]);
    }
}

#[test]
fn a_config_directory_that_is_no_directory_ignores_its_files() {
    let mut config = config_dir_with_all_files("/etc/factoriod");
    config.kind = Some(Kind::File);
    assert_eq!(
        ServerOpts::new(Some(config), None).get_opts(),
        vec!["--start-server-load-latest"]
    );
}

#[test]
fn config_state_tells_the_four_states_apart() {
    let path = "/etc/factoriod".to_string();
    assert_eq!(ServerOpts::new(None, None).config_state(), ConfigState::NoConfig);
    assert_eq!(
        ServerOpts::new(Some(ConfigDirectory::new(path.clone(), None)), None).config_state(),
        ConfigState::ConfigMissing
    );
    assert_eq!(
        ServerOpts::new(Some(ConfigDirectory::new(path.clone(), Some(Kind::File))), None)
            .config_state(),
        ConfigState::ConfigNotDirectory
    );
    assert_eq!(
        ServerOpts::new(Some(ConfigDirectory::new(path.clone(), Some(Kind::Other))), None)
            .config_state(),
        ConfigState::ConfigNotDirectory
    );
    assert_eq!(
        ServerOpts::new(Some(ConfigDirectory::new(path, Some(Kind::Directory))), None)
            .config_state(),
        ConfigState::ConfigPresent
    );
}

#[test]
fn build_with_all_four_files_and_no_state_directory() {
    let opts = ServerOpts::new(Some(config_dir_with_all_files("/etc/factoriod")), None);
    assert_eq!(
        opts.get_opts(),
        vec![
            "--server-settings",
            "/etc/factoriod/server-settings.json",
            "--use-server-whitelist",
            "--server-whitelist",
            "/etc/factoriod/server-whitelist.json",
            "--server-banlist",
            "/etc/factoriod/server-banlist.json",
            "--server-adminlist",
            "/etc/factoriod/server-adminlist.json",
        ]
    );
}

#[test]
fn build_without_the_whitelist() {
    let mut config = config_dir_with_all_files("/etc/factoriod");
    config.server_whitelist = Probe::Missing;
    let opts = ServerOpts::new(Some(config), None);
    assert_eq!(
        opts.get_opts(),
        vec![
            "--server-settings",
            "/etc/factoriod/server-settings.json",
            "--server-banlist",
            "/etc/factoriod/server-banlist.json",
            "--server-adminlist",
            "/etc/factoriod/server-adminlist.json",
        ]
    );
}

#[test]
fn build_with_an_empty_config_directory_gives_no_options() {
    let config = ConfigDirectory::new("/etc/factoriod".to_string(), Some(Kind::Directory));
    let opts = ServerOpts::new(Some(config), None);
    assert_eq!(opts.get_opts(), Vec::<String>::new());
    assert_eq!(opts.to_env(), "FACTORIO_OPTS=''");
}

#[test]
fn build_uses_the_resolved_path_of_each_file() {
    let mut config = ConfigDirectory::new("config".to_string(), Some(Kind::Directory));
    config.server_banlist = found_file("/srv/shared/banlist.json");
    let opts = ServerOpts::new(Some(config), None);
    assert_eq!(opts.get_opts(), vec!["--server-banlist", "/srv/shared/banlist.json"]);
}

#[test]
fn build_ignores_the_map_files() {
    let mut config = ConfigDirectory::new("/etc/factoriod".to_string(), Some(Kind::Directory));
    config.map_gen_settings = found_file("/etc/factoriod/map-gen-settings.json");
    config.map_settings = found_file("/etc/factoriod/map-settings.json");
    assert_eq!(ServerOpts::new(Some(config), None).get_opts(), Vec::<String>::new());
}

#[test]
fn build_with_a_state_directory_appends_the_latest_save() {
    let config = config_dir_with_all_files("/etc/factoriod");
    let state = state_dir_with_saves("/var/lib/factoriod", &["a.zip", "b.zip", "notes.txt"]);
    let opts = ServerOpts::new(Some(config), Some(state));
    assert_eq!(
        opts.get_opts(),
        vec![
            "--server-settings",
            "/etc/factoriod/server-settings.json",
            "--use-server-whitelist",
            "--server-whitelist",
            "/etc/factoriod/server-whitelist.json",
            "--server-banlist",
            "/etc/factoriod/server-banlist.json",
            "--server-adminlist",
            "/etc/factoriod/server-adminlist.json",
            "--start-server",
            "/var/lib/factoriod/saves/b.zip",
        ]
    );
}

#[test]
fn build_with_a_state_directory_without_saves_appends_nothing() {
    let mut config = ConfigDirectory::new("/etc/factoriod".to_string(), Some(Kind::Directory));
    config.server_settings = found_file("/etc/factoriod/server-settings.json");
    let expected = vec!["--server-settings", "/etc/factoriod/server-settings.json"];

    let empty = state_dir_with_saves("/var/lib/factoriod", &[]);
    assert_eq!(ServerOpts::new(Some(config.clone()), Some(empty)).get_opts(), expected);

    let mut no_saves_dir = state_dir_with_saves("/var/lib/factoriod", &[]);
    no_saves_dir.saves.listing = Listing::Unresolved;
    assert_eq!(ServerOpts::new(Some(config.clone()), Some(no_saves_dir)).get_opts(), expected);

    let mut not_a_dir = state_dir_with_saves("/var/lib/factoriod", &["a.zip"]);
    not_a_dir.kind = Some(Kind::File);
    assert_eq!(ServerOpts::new(Some(config.clone()), Some(not_a_dir)).get_opts(), expected);

    let mut missing = state_dir_with_saves("/var/lib/factoriod", &["a.zip"]);
    missing.kind = None;
    assert_eq!(ServerOpts::new(Some(config), Some(missing)).get_opts(), expected);
}

#[test]
fn env_string_of_no_tokens() {
    assert_eq!(opts_to_env(&Vec::new()), "FACTORIO_OPTS=''");
}

#[test]
fn env_string_of_three_tokens() {
    assert_eq!(opts_to_env(&strings(&["a", "b", "c"])), "FACTORIO_OPTS='a b c'");
}

#[test]
fn env_string_of_one_token_has_no_space() {
    assert_eq!(opts_to_env(&strings(&["--start-server"])), "FACTORIO_OPTS='--start-server'");
}

#[test]
fn env_string_does_not_escape_single_quotes() {
    assert_eq!(
        opts_to_env(&strings(&["--start-server", "/saves/it's.zip"])),
        "FACTORIO_OPTS='--start-server /saves/it's.zip'"
    );
}

#[test]
fn building_twice_gives_the_same_options() {
    let config = config_dir_with_all_files("/etc/factoriod");
    let state = state_dir_with_saves("/var/lib/factoriod", &["a.zip", "b.zip"]);
    let first = ServerOpts::new(Some(config.clone()), Some(state.clone()));
    let second = ServerOpts::new(Some(config), Some(state));
    assert_eq!(first.get_opts(), first.get_opts());
    assert_eq!(first.get_opts(), second.get_opts());
    assert_eq!(first.to_env().as_bytes(), second.to_env().as_bytes());
    assert_eq!(first.to_env(), opts_to_env(&first.get_opts()));
}
