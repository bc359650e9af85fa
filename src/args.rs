//! Launch options of the daemon, and where its configuration file is.
use vstd::prelude::*;
use vstd::string::StringExecFns;

use crate::config::opt_text;

verus! {

/// Launch options.
#[derive(Debug, PartialEq, Eq)]
pub struct Args {
    /// Whether to be verbose.
    pub verbose: bool,
    /// Whether to show the desktop service's shortcut dialog and exit.
    pub show_portal_config: bool,
    /// A configuration file to use in place of the one in the configuration
    /// directory.
    pub config: Option<String>,
}

/// Where the configuration file lies below the user's configuration
/// directory.
pub const CONFIG_FILE: &'static str = "iron-button/config.yml";

/// `rel` appended to the directory `dir`, with a separator between them
/// unless `dir` is empty or already ends with one.
pub open spec fn join_spec(dir: Seq<char>, rel: Seq<char>) -> Seq<char> {
    if dir.len() == 0 || dir.last() == '/' {
        dir + rel
    } else {
        dir + seq!['/'] + rel
    }
}

/// The configuration file for the options `config` and the configuration
/// directory `dir`: the file given in the options, else the default one in
/// the directory, else none.
pub open spec fn config_path_spec(config: Option<Seq<char>>, dir: Option<Seq<char>>) -> Option<Seq<char>> {
    match config {
        Some(p) => Some(p),
        None => match dir {
            Some(d) => Some(join_spec(d, CONFIG_FILE@)),
            None => None,
        },
    }
}

/// `rel` appended to the directory `dir`.
pub fn join(dir: String, rel: &str) -> (r: String)
    ensures
        r@ == join_spec(dir@, rel@),
{
    let n = dir.as_str().unicode_len();
    if n == 0 || dir.as_str().get_char(n - 1) == '/' {
        dir.concat(rel)
    } else {
        let with_sep = dir.concat("/");
        proof {
            reveal_strlit("/");
        }
        with_sep.concat(rel)
    }
}

impl Args {
    /// The configuration file to read, given the user's configuration
    /// directory where one is known. `None` where neither the options nor
    /// the directory give one.
    pub fn config_path(&self, config_dir: Option<String>) -> (r: Option<String>)
        ensures
            opt_text(r) == config_path_spec(
                opt_text(self.config),
                opt_text(config_dir),
            ),
    {
        match &self.config {
            Some(p) => Some(p.clone()),
            None => match config_dir {
                Some(d) => Some(join(d, CONFIG_FILE)),
                None => None,
            },
        }
    }
}

} // verus!
