//! Process configuration and the session's address book: the command-line
//! options as one explicit struct handed to the components that need it
//! (no global state), and the URL/parameter records the session resolver
//! fills in while scraping the upstream pages.
use vstd::prelude::*;
use crate::stations::Region;

verus! {

/// The command-line surface: one positional URL, a device-listing flag, a
/// certificate file, a proxy URL and a verbosity level. Parsing the
/// arguments is the launcher's job; the core only carries the values.
#[derive(Debug)]
pub struct Options {
    pub verbose: usize,
    pub show_dev_list: bool,
    pub cert: Option<String>,
    pub proxy: Option<String>,
    pub url: Option<String>,
}

impl Options {
    /// The defaults before any argument is read: nothing set.
    pub fn new() -> (opts: Self)
        ensures
            opts.verbose == 0,
            !opts.show_dev_list,
            opts.cert is None,
            opts.proxy is None,
            opts.url is None,
    {
        Options { verbose: 0, show_dev_list: false, cert: None, proxy: None, url: None }
    }
}

/// The positional URL of a parsed option set, if one was given.
pub fn args_url(opts: &Options) -> (r: Option<String>)
    ensures
        match r {
            Some(u) => opts.url is Some && u@ == opts.url->0@,
            None => opts.url is None,
        },
{
    match &opts.url {
        Some(u) => Some(u.clone()),
        None => None,
    }
}

/// One header name/value pair collected while resolving the session.
#[derive(Debug)]
pub struct Kvs {
    pub key: Option<String>,
    pub val: Option<String>,
}

/// The addresses a session resolves: the service domain and the paths and
/// URLs scraped from its pages.
#[derive(Debug)]
pub struct Url {
    pub domain: String,
    pub station: Option<String>,
    pub check: Option<String>,
    pub path: Vec<Option<String>>,
    pub prog: Option<String>,
    pub play: Vec<Option<String>>,
}

/// The parameters a session resolves: the partial-key material, the
/// station names offered, the auth headers, and the station query pair.
#[derive(Debug)]
pub struct Param {
    pub key: Option<String>,
    pub stations: Vec<String>,
    pub headers: Vec<Kvs>,
    pub station: Vec<Option<String>>,
}

/// The directory data a session holds.
#[derive(Debug)]
pub struct Data {
    pub region: Region,
}

/// The key-binding help shown on start.
pub const ABOUT: &'static str = "
A command line music player for Internet Radio.

[Key]                [Description]
 0-9                  adjust volume
 i                    station info
 n                    next station
 p                    previous station
 Q                    quit
 Ctrl+C               exit
";

/// The usage summary shown when no URL was given.
pub const USAGE: &'static str = "
Usage: radico [-s] [--cert=<cert>] [--proxy=<socks>] [url]

Available positional items:
    url                  url

Available options:
    -s, --show-dev-list  show device list
        --cert=<cert>    certificate
        --proxy=<socks>  ex: [https|socks5]://<ip>:<port>
    -h, --help           Prints help information
";

/// The key-binding help.
pub fn about() -> (r: &'static str)
    ensures
        r@ == ABOUT@,
{
    ABOUT
}

/// The usage summary.
pub fn usage() -> (r: &'static str)
    ensures
        r@ == USAGE@,
{
    USAGE
}

} // verus!
