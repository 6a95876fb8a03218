use vstd::prelude::*;
use vstd::string::*;

verus! {

/// The server's command-line options.
pub struct Opt {
    /// The log level.
    pub log_level: String,
    /// The address to listen on.
    pub addr: String,
    /// The port to listen on.
    pub port: u16,
    /// The directory that the static files are served from.
    pub static_dir: String,
}

impl Default for Opt {
    /// The options when none is given on the command line.
    fn default() -> (res: Self)
        ensures
            res.log_level@ == "debug"@,
            res.addr@ == "0.0.0.0"@,
            res.port == 8080,
            res.static_dir@ == "../dist"@,
    {
        Opt {
            log_level: String::from_str("debug"),
            addr: String::from_str("0.0.0.0"),
            port: 8080,
            static_dir: String::from_str("../dist"),
        }
    }
}

/// The filter that the server logs with at a given level: that level, with
/// the HTTP and I/O layers kept at `info`.
pub open spec fn log_filter_of(log_level: Seq<char>) -> Seq<char> {
    log_level + ",hyper=info,mio=info"@
}

/// The value to give `RUST_LOG` at start-up: none where it is already set,
/// else the filter for the chosen log level.
pub fn log_setting(rust_log_is_set: bool, log_level: &str) -> (res: Option<String>)
    ensures
        rust_log_is_set ==> res is None,
        !rust_log_is_set ==> (res matches Some(f) && f@ == log_filter_of(log_level@)),
{
    if rust_log_is_set {
        None
    } else {
        Some(String::from_str(log_level).concat(",hyper=info,mio=info"))
    }
}

} // verus!
