//! The commands of the command line, once its arguments have been read.

use crate::providers::Provider;
use vstd::prelude::*;

verus! {

/// What the user asks for.
#[allow(inconsistent_fields)]
#[derive(Debug, PartialEq)]
pub enum Command {
    /// List the providers and what is known of each.
    ProviderList,
    /// Give a provider its key and, if wanted, another URL.
    Configure { provider: Provider, url: Option<String>, api_key: String },
    /// Make a provider the one that is asked by default.
    SelectProvider { provider: Provider },
    /// Get the weather at an address: now, or on a date; from the selected
    /// provider, or from the one named.
    Get { address: String, date: Option<String>, json: bool, provider: Option<Provider> },
}

/// The command line as it was read: one command.
pub struct WeatherCli {
    command: Command,
}

impl WeatherCli {
    /// The command that was read.
    pub closed spec fn command(&self) -> Command {
        self.command
    }

    /// The command line that holds a command.
    pub fn new(command: Command) -> (r: WeatherCli)
        ensures
            r.command() == command,
    {
        WeatherCli { command }
    }

    /// Looks at the command.
    pub fn get_command(&self) -> (r: &Command)
        ensures
            *r == self.command(),
    {
        &self.command
    }

    /// Hands the command over.
    pub fn take_command(self) -> (r: Command)
        ensures
            r == self.command(),
    {
        self.command
    }
}

} // verus!
