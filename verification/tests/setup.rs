use factoriod::daemon::ServiceDirectories;
use factoriod::download::DownloadError;
use factoriod::paths::parent;
use factoriod::setup::{download_directory, extract_destination, opts_env_path, OPTS_ENV_FILE};

fn dirs(cache_dir: Option<&str>) -> ServiceDirectories {
    ServiceDirectories {
        state_dir: Some("/var/lib/factoriod".to_string()),
        config_dir: Some("/etc/factoriod".to_string()),
        cache_dir: cache_dir.map(|dir| dir.to_string()),
    }
}

#[test]
fn the_options_file_lies_in_the_cache_directory() {
    assert_eq!(OPTS_ENV_FILE, "factorio.opts.env");
    assert_eq!(
        opts_env_path(&dirs(Some("/var/cache/factoriod"))),
        Ok("/var/cache/factoriod/factorio.opts.env".to_string())
    );
}

#[test]
fn the_options_file_needs_a_cache_directory() {
    assert_eq!(opts_env_path(&dirs(None)), Err(DownloadError::CacheDirNotFound));
    assert_eq!(DownloadError::CacheDirNotFound.message(), "cache dir not found");
}

#[test]
fn archives_are_downloaded_to_the_cache_directory() {
    assert_eq!(
        download_directory(&dirs(Some("/var/cache/factoriod"))),
        Ok("/var/cache/factoriod".to_string())
    );
    assert_eq!(download_directory(&dirs(None)), Err(DownloadError::CacheDirNotFound));
}

#[test]
fn an_archive_is_unpacked_next_to_itself() {
    assert_eq!(
        extract_destination("/var/cache/factoriod/factorio_headless_x64_1.1.110.tar.xz"),
        Ok("/var/cache/factoriod".to_string())
    );
    assert_eq!(extract_destination("/factorio.tar.xz"), Ok("/".to_string()));
    assert_eq!(extract_destination("factorio.tar.xz"), Ok("".to_string()));
}

#[test]
fn an_archive_without_parent_is_refused() {
    assert_eq!(extract_destination(""), Err(DownloadError::ArchiveHasNoParent));
    assert_eq!(extract_destination("/"), Err(DownloadError::ArchiveHasNoParent));
    assert_eq!(DownloadError::ArchiveHasNoParent.message(), "archive has no parent");
}

#[test]
fn parent_is_what_stands_before_the_last_slash() {
    assert_eq!(parent("/a/b/c.zip"), Some("/a/b".to_string()));
    assert_eq!(parent("a/b"), Some("a".to_string()));
    assert_eq!(parent("/a"), Some("/".to_string()));
    assert_eq!(parent("a"), Some("".to_string()));
    assert_eq!(parent("/"), None);
    assert_eq!(parent(""), None);
}
