use sync_dot_files::{remote_url, App, Config, ConfigManager, SyncError};

fn stored(account: &str, files: &[&str], repo: &str) -> Config {
    Config {
        github_account: account.to_string(),
        dotfiles: files.iter().map(|f| f.to_string()).collect(),
        repo_path: repo.to_string(),
    }
}

#[test]
fn init_without_settings_uses_defaults() {
    let app = App::new("/home/alice");
    let c = app.init("alice", None);
    assert_eq!(c.github_account, "alice");
    assert_eq!(c.repo_path, "/home/alice/.config/sync-dot-files/repo");
    assert!(c.dotfiles.is_empty());
}

#[test]
fn init_keeps_existing_path_and_dotfiles() {
    let m = ConfigManager::new("/home/bob");
    let c = m.init("carol", Some(stored("bob", &[".bashrc", ".vimrc"], "/srv/dots")));
    assert_eq!(c, stored("carol", &[".bashrc", ".vimrc"], "/srv/dots"));
}

#[test]
fn manager_paths_derive_from_home() {
    let m = ConfigManager::new("/home/alice");
    assert_eq!(m.config_path, "/home/alice/.config/sync-dot-files/sync-dot-files.toml");
    assert_eq!(m.config_dir(), "/home/alice/.config/sync-dot-files");
    assert_eq!(m.default_repo_path(), "/home/alice/.config/sync-dot-files/repo");
    assert_eq!(m.home, "/home/alice");
}

#[test]
fn load_without_settings_is_not_initialized() {
    let m = ConfigManager::new("/h");
    assert_eq!(m.load(None), Err(SyncError::NotInitialized));
    assert_eq!(m.load(Some(stored("a", &[], "/r"))), Ok(stored("a", &[], "/r")));
}

#[test]
fn add_dotfile_appends() {
    let app = App::new("/h");
    let c = app.add_dotfile(".zshrc", Some(stored("a", &[".bashrc"], "/r"))).unwrap();
    assert_eq!(c, stored("a", &[".bashrc", ".zshrc"], "/r"));
}

#[test]
fn add_dotfile_without_settings_fails() {
    let m = ConfigManager::new("/h");
    assert_eq!(m.add_dotfile(".zshrc", None), Err(SyncError::NotInitialized));
}

#[test]
fn repo_path_and_remote_come_from_settings() {
    let app = App::new("/h");
    assert_eq!(app.get_local_repo_path(Some(stored("a", &[], "/r/x"))), Ok("/r/x".to_string()));
    assert_eq!(app.get_local_repo_path(None), Err(SyncError::NotInitialized));
    assert_eq!(
        app.get_github_repo(Some(stored("alice", &[], "/r"))),
        Ok("git@github.com:alice/my-dot-files.git".to_string())
    );
    assert_eq!(app.get_github_repo(None), Err(SyncError::NotInitialized));
    assert_eq!(app.config().home, "/h");
}

#[test]
fn remote_url_formula() {
    assert_eq!(remote_url("bob"), "git@github.com:bob/my-dot-files.git");
    assert_eq!(remote_url(""), "git@github.com:/my-dot-files.git");
}
