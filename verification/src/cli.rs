//! The command line's settings.

use crate::config::DEFAULT_PORT;
use crate::instance::Instance;
use vstd::prelude::*;

verus! {

/// What the command line can say.
#[derive(Debug, Clone)]
pub struct Cli {
    /// Do not look for peers.
    pub no_discovery: bool,
    /// The group, where it is not the user's.
    pub group: Option<String>,
    /// The pre-shared key.
    pub psk: Option<String>,
    /// Open a pairing window of so many seconds.
    pub pair: Option<u64>,
    /// The port to listen on.
    pub port: u16,
    /// The configuration file.
    pub config: Option<String>,
    /// One of `trace`, `debug`, `info`, `warn`, `error`.
    pub log_level: Option<String>,
}

impl Default for Cli {
    /// The settings of an empty command line.
    fn default() -> (cli: Cli)
        ensures
            !cli.no_discovery,
            cli.group is None,
            cli.psk is None,
            cli.pair is None,
            cli.port == DEFAULT_PORT,
            cli.config is None,
            cli.log_level is None,
    {
        Cli {
            no_discovery: false,
            group: None,
            psk: None,
            pair: None,
            port: DEFAULT_PORT,
            config: None,
            log_level: None,
        }
    }
}

impl Cli {
    /// The log level to run with: the one given, or else `info`.
    pub fn effective_log_level(&self) -> (level: String)
        ensures
            level@ == match self.log_level {
                Some(l) => l@,
                None => "info"@,
            },
    {
        match &self.log_level {
            Some(l) => l.clone(),
            None => "info".to_string(),
        }
    }

    /// Puts the group of the command line, where it names one, in the
    /// place of the instance's.
    pub fn apply_group(&self, instance: &mut Instance)
        ensures
            final(instance).id == old(instance).id,
            final(instance).device_name == old(instance).device_name,
            final(instance).allowed_peers == old(instance).allowed_peers,
            match self.group {
                Some(g) => final(instance).group matches Some(h) && h@ == g@,
                None => final(instance).group == old(instance).group,
            },
    {
        match &self.group {
            Some(g) => {
                instance.group = Some(g.clone());
            },
            None => {},
        }
    }
}

} // verus!
