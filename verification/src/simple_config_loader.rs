//! The places a configuration is looked for.

use vstd::prelude::*;

verus! {

/// The system-wide configuration file.
pub const SYSTEM_CONFIG_PATH: &'static str = "/etc/cursedboard/config.toml";

/// The configuration file of the working directory.
pub const LOCAL_CONFIG_PATH: &'static str = "cursedboard.toml";

/// The hidden configuration file of the working directory.
pub const HIDDEN_CONFIG_PATH: &'static str = ".cursedboard.toml";

/// The configuration files to read, in the order in which they are
/// merged: a later file overrides an earlier one.
#[derive(Debug, Clone)]
pub struct SimpleConfigLoader {
    config_paths: Vec<String>,
}

pub open spec fn view_paths(paths: Seq<String>) -> Seq<Seq<char>> {
    Seq::new(paths.len(), |i: int| paths[i]@)
}

/// The files looked for by default, in order: the system's, the user's,
/// and the two of the working directory.
pub open spec fn default_candidates(user_config: Seq<char>) -> Seq<Seq<char>> {
    seq![SYSTEM_CONFIG_PATH@, user_config, LOCAL_CONFIG_PATH@, HIDDEN_CONFIG_PATH@]
}

/// The candidates that are present, in order. `present[i]` says whether
/// candidate `i` exists; a candidate without a say counts as absent.
pub open spec fn present_candidates(candidates: Seq<Seq<char>>, present: Seq<bool>) -> Seq<
    Seq<char>,
>
    decreases candidates.len(),
{
    if candidates.len() == 0 {
        Seq::empty()
    } else {
        let rest = present_candidates(candidates.drop_last(), present);
        let i = candidates.len() - 1;
        if i < present.len() && present[i] {
            rest.push(candidates.last())
        } else {
            rest
        }
    }
}

fn flag(present: &Vec<bool>, i: usize) -> (b: bool)
    ensures
        b == (i < present@.len() && present@[i as int]),
{
    i < present.len() && present[i]
}

impl SimpleConfigLoader {
    /// The paths to read, in order.
    pub closed spec fn paths(&self) -> Seq<Seq<char>> {
        view_paths(self.config_paths@)
    }

    /// A loader with nothing to read.
    pub fn new() -> (loader: SimpleConfigLoader)
        ensures
            loader.paths() == Seq::<Seq<char>>::empty(),
    {
        let loader = SimpleConfigLoader { config_paths: Vec::new() };
        loader
    }

    /// Adds a configuration file, if it is there: `found` says so.
    pub fn add_config_path(self, path: String, found: bool) -> (loader: SimpleConfigLoader)
        ensures
            loader.paths() == if found {
                self.paths().push(path@)
            } else {
                self.paths()
            },
    {
        let mut loader = self;
        if found {
            loader.config_paths.push(path);
        }
        loader
    }

    /// Adds the default configuration files that exist. `user_config` is
    /// the user's file; `present` says of each default file, in order,
    /// whether it exists.
    pub fn add_default_paths(self, user_config: String, present: &Vec<bool>) -> (loader:
        SimpleConfigLoader)
        ensures
            loader.paths() == self.paths() + present_candidates(
                default_candidates(user_config@),
                present@,
            ),
    {
        let ghost candidates = default_candidates(user_config@);
        let loader = self;
        proof {
            assert(loader.paths() =~= self.paths() + present_candidates(
                candidates.take(0),
                present@,
            ));
        }
        let loader = loader.add_config_path(SYSTEM_CONFIG_PATH.to_string(), flag(present, 0));
        proof {
            assert(candidates.take(1).drop_last() =~= candidates.take(0));
            assert(loader.paths() =~= self.paths() + present_candidates(
                candidates.take(1),
                present@,
            ));
        }
        let loader = loader.add_config_path(user_config, flag(present, 1));
        proof {
            assert(candidates.take(2).drop_last() =~= candidates.take(1));
            assert(loader.paths() =~= self.paths() + present_candidates(
                candidates.take(2),
                present@,
            ));
        }
        let loader = loader.add_config_path(LOCAL_CONFIG_PATH.to_string(), flag(present, 2));
        proof {
            assert(candidates.take(3).drop_last() =~= candidates.take(2));
            assert(loader.paths() =~= self.paths() + present_candidates(
                candidates.take(3),
                present@,
            ));
        }
        let loader = loader.add_config_path(HIDDEN_CONFIG_PATH.to_string(), flag(present, 3));
        loader
    }

    /// The paths to read, in order.
    pub fn config_paths(&self) -> (paths: &Vec<String>)
        ensures
            view_paths(paths@) == self.paths(),
    {
        &self.config_paths
    }
}

impl Default for SimpleConfigLoader {
    fn default() -> (loader: SimpleConfigLoader)
        ensures
            loader.paths() == Seq::<Seq<char>>::empty(),
    {
        SimpleConfigLoader::new()
    }
}

} // verus!
