//! Application configuration and the decisions a configuration save entails:
//! whether the network client must be rebuilt and what happens to the file
//! logger. Persisting the file itself is a collaborator's job.

use vstd::prelude::*;

verus! {

#[derive(Clone, Copy, PartialEq, Eq, Structural, Debug)]
pub enum ProxyMode {
    NoProxy,
    System,
    Custom,
}

/// The settings the orchestrator's collaborators are configured from.
#[derive(Debug)]
pub struct Config {
    pub proxy_mode: ProxyMode,
    pub proxy_host: String,
    pub proxy_port: u16,
    pub enable_file_logger: bool,
    pub download_dir: String,
}

/// What is to happen to the file logger after a configuration save.
#[derive(Clone, Copy, PartialEq, Eq, Structural, Debug)]
pub enum LoggerAction {
    Keep,
    Reload,
    Disable,
}

/// The actions a configuration save entails.
#[derive(Clone, Copy, PartialEq, Eq, Structural, Debug)]
pub struct SavePlan {
    pub proxy_changed: bool,
    pub logger: LoggerAction,
}

/// Whether the two configurations name different proxies.
pub open spec fn proxy_differs(a: Config, b: Config) -> bool {
    a.proxy_mode != b.proxy_mode || a.proxy_host@ != b.proxy_host@ || a.proxy_port != b.proxy_port
}

impl Config {
    /// Decide what a save of `new` over `self` entails: the network client
    /// is rebuilt exactly when the proxy settings differ, and the file
    /// logger is reloaded or disabled exactly when its switch flipped.
    pub fn plan_save(&self, new: &Config) -> (r: SavePlan)
        ensures
            r.proxy_changed == proxy_differs(*self, *new),
            self.enable_file_logger == new.enable_file_logger ==> r.logger is Keep,
            (self.enable_file_logger != new.enable_file_logger && new.enable_file_logger)
                ==> r.logger is Reload,
            (self.enable_file_logger != new.enable_file_logger && !new.enable_file_logger)
                ==> r.logger is Disable,
    {
        let proxy_changed = self.proxy_mode != new.proxy_mode
            || self.proxy_host != new.proxy_host
            || self.proxy_port != new.proxy_port;
        let logger = if self.enable_file_logger == new.enable_file_logger {
            LoggerAction::Keep
        } else if new.enable_file_logger {
            LoggerAction::Reload
        } else {
            LoggerAction::Disable
        };
        SavePlan { proxy_changed, logger }
    }
}

} // verus!
