//! Runtime settings, derived from the command line.

use vstd::prelude::*;

verus! {

/// The raw command-line arguments.
pub struct Args {
    /// Path to the configuration file.
    pub config: String,
    /// Do not refresh the DNS record.
    pub no_dns: bool,
    /// Do not pull from the remote before the service starts.
    pub no_pull: bool,
    /// Do not push to the remote after the service has started.
    pub no_push: bool,
    /// Shorthand for `no_pull` and `no_push` together.
    pub no_sync: bool,
}

impl Default for Args {
    /// No flag given: the configuration is `./droplet.toml` and nothing is suppressed.
    fn default() -> (args: Args)
        ensures
            args.config@ == "./droplet.toml"@,
            !args.no_dns,
            !args.no_pull,
            !args.no_push,
            !args.no_sync,
    {
        Args {
            config: "./droplet.toml".to_owned(),
            no_dns: false,
            no_pull: false,
            no_push: false,
            no_sync: false,
        }
    }
}

/// Runtime settings: which optional steps a run may take.
pub struct Settings {
    config_path: String,
    update_dns: bool,
    sync_pull: bool,
    sync_push: bool,
}

/// The mathematical content of [`Settings`].
pub struct SettingsView {
    pub config_path: Seq<char>,
    pub update_dns: bool,
    pub sync_pull: bool,
    pub sync_push: bool,
}

impl View for Settings {
    type V = SettingsView;

    closed spec fn view(&self) -> SettingsView {
        SettingsView {
            config_path: self.config_path@,
            update_dns: self.update_dns,
            sync_pull: self.sync_pull,
            sync_push: self.sync_push,
        }
    }
}

/// The settings that a set of arguments asks for: each flag switches its step
/// off, and `no_sync` switches off both the pull and the push.
pub open spec fn settings_of(args: Args) -> SettingsView {
    SettingsView {
        config_path: args.config@,
        update_dns: !args.no_dns,
        sync_pull: !(args.no_pull || args.no_sync),
        sync_push: !(args.no_push || args.no_sync),
    }
}

impl Settings {
    /// Derives the settings from the command-line arguments.
    pub fn get(args: Args) -> (settings: Settings)
        ensures
            settings@ == settings_of(args),
    {
        Settings {
            config_path: args.config,
            update_dns: !args.no_dns,
            sync_pull: !(args.no_pull || args.no_sync),
            sync_push: !(args.no_push || args.no_sync),
        }
    }

    /// Path to the configuration file.
    pub fn config_path(&self) -> (path: &String)
        ensures
            path@ == self@.config_path,
    {
        &self.config_path
    }

    /// Whether the DNS record may be refreshed.
    pub fn update_dns(&self) -> (on: bool)
        ensures
            on == self@.update_dns,
    {
        self.update_dns
    }

    /// Whether the working tree may be pulled before the service starts.
    pub fn sync_pull(&self) -> (on: bool)
        ensures
            on == self@.sync_pull,
    {
        self.sync_pull
    }

    /// Whether the working tree may be pushed after the service has started.
    pub fn sync_push(&self) -> (on: bool)
        ensures
            on == self@.sync_push,
    {
        self.sync_push
    }
}

} // verus!
