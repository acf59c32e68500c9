//! The proxy's configuration values.
//!
//! The engine takes three inputs from its configuration: the listening port,
//! the upstream target, and the toggle selecting chained mode over a direct
//! connection. Loading and saving the values on disk and reading the command
//! line stay with the caller; this module holds the values themselves, their
//! defaults, the override merge, and the resolution of the configuration
//! file path.

use vstd::prelude::*;
use vstd::string::StrSliceExecFns;
use vstd::string::StringExecFns;

verus! {

/// The proxy's configuration: the listening port, the upstream proxy target,
/// the toggle selecting chained mode, and whether the service manager is
/// asked to restart the proxy when the toggle changes.
#[derive(Clone, Debug, PartialEq, Eq)]
pub struct Config {
    pub port: u16,
    pub target: String,
    pub status: bool,
    pub systemd: bool,
}

impl Default for Config {
    /// The defaults: listening on 1080, an upstream beside it on 1081,
    /// toggled off, no service manager.
    fn default() -> (r: Config)
        ensures
            r.port == 1080,
            r.target@ == "127.0.0.1:1081"@,
            r.status == false,
            r.systemd == false,
    {
        Config { port: 1080, target: "127.0.0.1:1081".to_owned(), status: false, systemd: false }
    }
}

impl Config {
    /// Applies command-line overrides: each value that was given replaces
    /// the stored one, and each that was not leaves it unchanged.
    pub fn apply_overrides(
        self,
        port: Option<u16>,
        target: Option<String>,
        status: Option<bool>,
        systemd: Option<bool>,
    ) -> (r: Config)
        ensures
            r.port == (match port {
                Some(p) => p,
                None => self.port,
            }),
            r.target@ == (match target {
                Some(t) => t@,
                None => self.target@,
            }),
            r.status == (match status {
                Some(s) => s,
                None => self.status,
            }),
            r.systemd == (match systemd {
                Some(s) => s,
                None => self.systemd,
            }),
    {
        let new_port = match port {
            Some(p) => p,
            None => self.port,
        };
        let new_target = match target {
            Some(t) => t,
            None => self.target,
        };
        let new_status = match status {
            Some(s) => s,
            None => self.status,
        };
        let new_systemd = match systemd {
            Some(s) => s,
            None => self.systemd,
        };
        Config { port: new_port, target: new_target, status: new_status, systemd: new_systemd }
    }
}

/// Where the configuration file lives, given the path from the arguments: a
/// directory path gets the file name appended, behind a separating slash
/// unless it already ends in one; any other path stands as it is.
pub open spec fn spec_real_config_path(path: Seq<char>, is_dir: bool) -> Seq<char> {
    if is_dir {
        if path.len() > 0 && path.last() == '/' {
            path + "toggleproxy.json"@
        } else {
            path + "/toggleproxy.json"@
        }
    } else {
        path
    }
}

/// Resolves the configuration file path. The caller reads `config_path` from
/// the arguments and supplies whether it names a directory on disk.
pub fn get_real_config_path(config_path: &str, is_dir: bool) -> (r: String)
    ensures
        r@ == spec_real_config_path(config_path@, is_dir),
{
    if is_dir {
        let n = config_path.unicode_len();
        let ends_slash = if n > 0 {
            config_path.get_char(n - 1) == '/'
        } else {
            false
        };
        let mut out = config_path.to_owned();
        if ends_slash {
            out.append("toggleproxy.json");
        } else {
            out.append("/toggleproxy.json");
        }
        out
    } else {
        config_path.to_owned()
    }
}

} // verus!
