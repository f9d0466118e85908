//! The configuration of a run. It is made once and only read afterwards.

use crate::ignore::{ignore_codes, parse_ignore_codes};
use vstd::prelude::*;
use vstd::string::*;

verus! {

/// What every unit of work of a run is told.
#[derive(Clone, Debug)]
pub struct Config {
    /// The HTTP method of every request.
    pub method: String,
    /// The time that one request may take, in milliseconds.
    pub timeout_ms: u64,
    /// The directory that bodies are saved in.
    pub directory: String,
    /// The status codes whose responses are dropped.
    pub ignore: Vec<u16>,
    /// Whether bodies are printed instead of saved.
    pub stdout: bool,
}

/// A configuration as contracts see it. The ignored codes are a set: neither their
/// order nor a repetition matters.
pub struct ConfigView {
    pub method: Seq<char>,
    pub timeout_ms: u64,
    pub directory: Seq<char>,
    pub ignore: Set<u16>,
    pub stdout: bool,
}

impl View for Config {
    type V = ConfigView;

    open spec fn view(&self) -> ConfigView {
        ConfigView {
            method: self.method@,
            timeout_ms: self.timeout_ms,
            directory: self.directory@,
            ignore: self.ignore@.to_set(),
            stdout: self.stdout,
        }
    }
}

/// The codes that an ignore option names; without the option there are none.
pub open spec fn ignored_by(ignore: Option<&str>) -> Set<u16> {
    match ignore {
        Some(list) => ignore_codes(list@).to_set(),
        None => Set::empty(),
    }
}

/// The configuration of a run that was given no option.
pub open spec fn default_config() -> ConfigView {
    ConfigView {
        method: "GET"@,
        timeout_ms: 5000,
        directory: "responses"@,
        ignore: Set::empty(),
        stdout: false,
    }
}

impl Config {
    /// The configuration that the given options ask for. The ignore list is read
    /// here, once; entries of it that name no status code are dropped.
    pub fn new(
        method: String,
        timeout_ms: u64,
        directory: String,
        ignore: Option<&str>,
        stdout: bool,
    ) -> (config: Config)
        ensures
            config@ == (ConfigView {
                method: method@,
                timeout_ms,
                directory: directory@,
                ignore: ignored_by(ignore),
                stdout,
            }),
    {
        let codes = match ignore {
            Some(list) => parse_ignore_codes(list),
            None => Vec::new(),
        };
        let config = Config { method, timeout_ms, directory, ignore: codes, stdout };
        assert(config@.ignore =~= ignored_by(ignore));
        config
    }

    /// Whether a response with this status is dropped.
    pub fn ignores(&self, status: u16) -> (ignored: bool)
        ensures
            ignored == self@.ignore.contains(status),
    {
        let mut i: usize = 0;
        while i < self.ignore.len()
            invariant
                i <= self.ignore@.len(),
                forall|j: int| 0 <= j < i ==> self.ignore@[j] != status,
            decreases self.ignore@.len() - i,
        {
            if self.ignore[i] == status {
                return true;
            }
            i = i + 1;
        }
        false
    }
}

impl Default for Config {
    /// `GET`, five seconds, the directory `responses`, nothing ignored, bodies saved.
    fn default() -> (config: Config)
        ensures
            config@ == default_config(),
    {
        let config = Config {
            method: String::from_str("GET"),
            timeout_ms: 5000,
            directory: String::from_str("responses"),
            ignore: Vec::new(),
            stdout: false,
        };
        assert(config@.ignore =~= Set::<u16>::empty());
        config
    }
}

} // verus!
