use vstd::prelude::*;
use vstd::string::StringExecFns;

use crate::error::SyncError;

verus! {

/// The persisted settings: the account whose repository is mirrored, the
/// dotfiles tracked (relative to the home directory, in the order they were
/// added) and where the checkout lives.
#[derive(Debug, Clone, PartialEq, Eq, Default)]
pub struct Config {
    pub github_account: String,
    pub dotfiles: Vec<String>,
    pub repo_path: String,
}

/// The settings as plain sequences of characters.
pub struct ConfigModel {
    pub account: Seq<char>,
    pub dotfiles: Seq<Seq<char>>,
    pub repo_path: Seq<char>,
}

impl View for Config {
    type V = ConfigModel;

    open spec fn view(&self) -> ConfigModel {
        ConfigModel {
            account: self.github_account@,
            dotfiles: self.dotfiles.deep_view(),
            repo_path: self.repo_path@,
        }
    }
}

/// The settings file, below the home directory.
pub open spec fn config_file_of(home: Seq<char>) -> Seq<char> {
    home + "/.config/sync-dot-files/sync-dot-files.toml"@
}

/// The directory that holds the settings file.
pub open spec fn config_dir_of(home: Seq<char>) -> Seq<char> {
    home + "/.config/sync-dot-files"@
}

/// Where the checkout goes when the settings do not say otherwise.
pub open spec fn default_repo_path_of(home: Seq<char>) -> Seq<char> {
    home + "/.config/sync-dot-files/repo"@
}

/// Owns the location of the settings and decides how they change. Reading
/// and writing the file is left to the caller, which hands in what the file
/// held (`None` when there is no file) and stores what comes back.
pub struct ConfigManager {
    pub config_path: String,
    pub home: String,
}

impl ConfigManager {
    /// A manager for the settings of the user whose home directory is `home`.
    pub fn new(home: &str) -> (r: ConfigManager)
        ensures
            r.home@ == home@,
            r.config_path@ == config_file_of(home@),
    {
        let config_path = String::from_str(home).concat("/.config/sync-dot-files/sync-dot-files.toml");
        ConfigManager { config_path, home: String::from_str(home) }
    }

    /// The directory that must exist before the settings are written.
    pub fn config_dir(&self) -> (r: String)
        ensures
            r@ == config_dir_of(self.home@),
    {
        self.home.clone().concat("/.config/sync-dot-files")
    }

    /// The checkout location given to settings created from nothing.
    pub fn default_repo_path(&self) -> (r: String)
        ensures
            r@ == default_repo_path_of(self.home@),
    {
        self.home.clone().concat("/.config/sync-dot-files/repo")
    }

    /// The settings, given what the settings file held.
    pub fn load(&self, stored: Option<Config>) -> (r: Result<Config, SyncError>)
        ensures
            match stored {
                Some(c) => r == Ok::<Config, SyncError>(c),
                None => r == Err::<Config, SyncError>(SyncError::NotInitialized),
            },
    {
        match stored {
            Some(c) => Ok(c),
            None => Err(SyncError::NotInitialized),
        }
    }

    /// The settings to save for `github_account`: existing settings keep their
    /// checkout location and dotfiles; new ones get the default location and
    /// no dotfiles.
    pub fn init(&self, github_account: &str, stored: Option<Config>) -> (r: Config)
        ensures
            r@.account == github_account@,
            match stored {
                Some(c) => r@.repo_path == c@.repo_path && r@.dotfiles == c@.dotfiles,
                None => r@.repo_path == default_repo_path_of(self.home@)
                    && r@.dotfiles.len() == 0,
            },
    {
        let mut config = match stored {
            Some(c) => c,
            None => Config {
                github_account: String::new(),
                dotfiles: Vec::new(),
                repo_path: self.default_repo_path(),
            },
        };
        config.github_account = String::from_str(github_account);
        config
    }

    /// The settings to save once `dotfile` is tracked: it is appended to the
    /// dotfiles, nothing else changes. Fails when there are no settings.
    pub fn add_dotfile(&self, dotfile: &str, stored: Option<Config>) -> (r: Result<Config, SyncError>)
        ensures
            match stored {
                Some(c) => r matches Ok(n) && n@.account == c@.account && n@.repo_path
                    == c@.repo_path && n@.dotfiles == c@.dotfiles.push(dotfile@),
                None => r == Err::<Config, SyncError>(SyncError::NotInitialized),
            },
    {
        let mut config = self.load(stored)?;
        config.dotfiles.push(String::from_str(dotfile));
        proof {
            assert(config.dotfiles.deep_view() =~= stored->Some_0.dotfiles.deep_view().push(dotfile@));
        }
        Ok(config)
    }
}

} // verus!
