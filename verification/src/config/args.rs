//! Command-line options: their defaults and the values they admit.
use vstd::prelude::*;

verus! {

/// The options the service starts with.
#[derive(Clone, Debug)]
pub struct Opt {
    /// HTTP Server address
    pub address: String,
    /// Path of the config file, its extension included.
    pub config_path: String,
    /// Whether the config watcher follows sub-folders ("recursive") or the
    /// given path alone ("nonrecursive").
    pub recursive_mode: String,
    /// Initial log level of the application
    pub log_level: String,
}

/// The value given, or the default when none is.
pub open spec fn given_or(v: Option<String>, default: Seq<char>) -> Seq<char> {
    match v {
        Some(s) => s@,
        None => default,
    }
}

/// The recursive modes the config watcher admits.
pub open spec fn is_recursive_mode(m: Seq<char>) -> bool {
    m == "recursive"@ || m == "nonrecursive"@
}

/// The recursive modes the config watcher admits, in the order they are listed.
pub fn recursive_modes() -> (modes: Vec<&'static str>)
    ensures
        modes@.len() == 2,
        modes@[0]@ == "recursive"@,
        modes@[1]@ == "nonrecursive"@,
{
    let mut modes: Vec<&'static str> = Vec::new();
    modes.push("recursive");
    modes.push("nonrecursive");
    modes
}

/// A copy of the value given, or the default.
fn value_or(v: &Option<String>, default: &str) -> (r: String)
    ensures
        r@ == given_or(*v, default@),
{
    match v {
        Some(s) => s.clone(),
        None => String::from_str(default),
    }
}

impl Opt {
    /// The options, from the values given on the command line: each option
    /// that is not given takes its default ("127.0.0.1:9090",
    /// "./config.yaml", "nonrecursive", "info"). The command-line parser
    /// admits only the listed recursive modes (`recursive_modes`), so a
    /// given one is one of them.
    pub fn args(
        address: Option<String>,
        config_path: Option<String>,
        recursive_mode: Option<String>,
        log_level: Option<String>,
    ) -> (o: Opt)
        requires
            recursive_mode matches Some(m) ==> is_recursive_mode(m@),
        ensures
            o.address@ == given_or(address, "127.0.0.1:9090"@),
            o.config_path@ == given_or(config_path, "./config.yaml"@),
            o.recursive_mode@ == given_or(recursive_mode, "nonrecursive"@),
            o.log_level@ == given_or(log_level, "info"@),
            is_recursive_mode(o.recursive_mode@),
    {
        Opt {
            address: value_or(&address, "127.0.0.1:9090"),
            config_path: value_or(&config_path, "./config.yaml"),
            recursive_mode: value_or(&recursive_mode, "nonrecursive"),
            log_level: value_or(&log_level, "info"),
        }
    }
}

} // verus!
