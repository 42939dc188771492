//! Choosing the configuration file: probing candidates in priority order, and the outcome of
//! reading the chosen one or of writing a default one.
use vstd::prelude::*;
use crate::config::Config;

verus! {

/// A place a configuration file may be found, highest priority first.
#[derive(Copy, Clone, Debug, PartialEq, Eq, Structural)]
pub enum Candidate {
    /// The path given on the command line or in the environment.
    Explicit,
    /// `./erp.toml`.
    WorkingDir,
    /// `erp.toml` in the user's configuration directory.
    UserConfigDir,
    /// `/etc/erp.toml`.
    System,
}

/// Command-line arguments of the server.
#[derive(Clone, Debug, PartialEq, Eq)]
pub struct Args {
    /// Configuration file given on the command line or in the environment.
    pub config: Option<String>,
}

impl Args {
    /// Whether a configuration file was given explicitly.
    pub fn explicit_given(&self) -> (r: bool)
        ensures
            r == self.config is Some,
    {
        self.config.is_some()
    }
}

/// Number of candidates that are probed for existence (all but the explicit one).
pub const PROBED_CANDIDATES: usize = 3;

/// The probed candidates in priority order.
pub open spec fn probed_candidate(i: int) -> Candidate {
    if i == 0 {
        Candidate::WorkingDir
    } else if i == 1 {
        Candidate::UserConfigDir
    } else {
        Candidate::System
    }
}

/// What to do next while looking for a configuration file.
#[derive(Copy, Clone, Debug, PartialEq, Eq, Structural)]
pub enum Probe {
    /// Read this candidate; no further candidate is looked at.
    Use(Candidate),
    /// Find out whether this candidate exists, and report it.
    Check(Candidate),
    /// No candidate exists: write the default configuration.
    CreateDefault,
}

/// Index of the first `true` among the first `n` entries of `found`, if any.
pub open spec fn first_found(found: Seq<bool>, n: int) -> Option<int>
    decreases n,
{
    if n <= 0 {
        None
    } else {
        match first_found(found, n - 1) {
            Some(i) => Some(i),
            None => if found[n - 1] {
                Some(n - 1)
            } else {
                None
            },
        }
    }
}

/// The next step, given whether an explicit path was supplied and the existence of the probed
/// candidates checked so far, in order.
pub open spec fn probe_spec(explicit_given: bool, found: Seq<bool>) -> Probe {
    let n = if found.len() < PROBED_CANDIDATES { found.len() as int } else { PROBED_CANDIDATES as int };
    if explicit_given {
        Probe::Use(Candidate::Explicit)
    } else {
        match first_found(found, n) {
            Some(i) => Probe::Use(probed_candidate(i)),
            None => if n < PROBED_CANDIDATES {
                Probe::Check(probed_candidate(n))
            } else {
                Probe::CreateDefault
            },
        }
    }
}

proof fn first_found_facts(found: Seq<bool>, n: int)
    requires
        0 <= n <= found.len(),
    ensures
        first_found(found, n) matches Some(i) ==> 0 <= i < n && found[i] && forall|j: int|
            0 <= j < i ==> !found[j],
        first_found(found, n) is None ==> forall|j: int| 0 <= j < n ==> !found[j],
    decreases n,
{
    if n > 0 {
        first_found_facts(found, n - 1);
    }
}

proof fn first_found_prefix(found: Seq<bool>, k: int, n: int)
    requires
        0 <= n <= k <= found.len(),
    ensures
        first_found(found.take(k), n) == first_found(found, n),
    decreases n,
{
    if n > 0 {
        first_found_prefix(found, k, n - 1);
    }
}

/// Decides the next step of the search for a configuration file.
pub fn next_probe(explicit_given: bool, found: &Vec<bool>) -> (r: Probe)
    ensures
        r == probe_spec(explicit_given, found@),
{
    if explicit_given {
        return Probe::Use(Candidate::Explicit);
    }
    let n: usize = if found.len() < PROBED_CANDIDATES { found.len() } else { PROBED_CANDIDATES };
    let mut i: usize = 0;
    while i < n
        invariant
            !explicit_given,
            n == (if found@.len() < PROBED_CANDIDATES { found@.len() as int } else { PROBED_CANDIDATES as int }),
            n <= PROBED_CANDIDATES,
            i <= n,
            first_found(found@, i as int) is None,
        decreases n - i,
    {
        if found[i] {
            let c = if i == 0 {
                Candidate::WorkingDir
            } else if i == 1 {
                Candidate::UserConfigDir
            } else {
                Candidate::System
            };
            proof {
                assert(first_found(found@, i as int + 1) == Some(i as int));
                first_found_stable(found@, i as int + 1, n as int);
            }
            return Probe::Use(c);
        }
        i = i + 1;
    }
    if n < PROBED_CANDIDATES {
        if n == 0 {
            Probe::Check(Candidate::WorkingDir)
        } else if n == 1 {
            Probe::Check(Candidate::UserConfigDir)
        } else {
            Probe::Check(Candidate::System)
        }
    } else {
        Probe::CreateDefault
    }
}

/// Outcome of the search when candidates are checked one at a time, starting after the first
/// `k` of them, and the search stops at the first step that is not a check.
pub open spec fn search_outcome(exists: Seq<bool>, k: nat) -> Probe
    decreases PROBED_CANDIDATES - k,
{
    let p = probe_spec(false, exists.take(k as int));
    if k < PROBED_CANDIDATES && p is Check {
        search_outcome(exists, k + 1)
    } else {
        p
    }
}

/// With no explicit path, the search picks the first existing candidate in priority order, or
/// asks for the default file when none exists; and a candidate is only ever checked while every
/// candidate before it is known not to exist, so none after an existing one is looked at.
pub proof fn law_first_existing_candidate_wins(exists: Seq<bool>)
    requires
        exists.len() == PROBED_CANDIDATES,
    ensures
        first_found(exists, PROBED_CANDIDATES as int) matches Some(i) ==> search_outcome(exists, 0)
            == Probe::Use(probed_candidate(i)),
        first_found(exists, PROBED_CANDIDATES as int) is None ==> search_outcome(exists, 0)
            == Probe::CreateDefault,
        forall|k: nat|
            k <= PROBED_CANDIDATES && (#[trigger] probe_spec(false, exists.take(k as int))) is Check
                ==> forall|j: int| 0 <= j < k ==> !exists[j],
        forall|k: nat|
            k <= PROBED_CANDIDATES && (#[trigger] probe_spec(false, exists.take(k as int))) is Check
                ==> probe_spec(false, exists.take(k as int)) == Probe::Check(probed_candidate(k as int)),
{
    assert forall|k: nat| k <= PROBED_CANDIDATES && (#[trigger] probe_spec(false, exists.take(k as int))) is Check
        implies (forall|j: int| 0 <= j < k ==> !exists[j]) && probe_spec(false, exists.take(k as int))
            == Probe::Check(probed_candidate(k as int)) by {
        let t = exists.take(k as int);
        first_found_prefix(exists, k as int, k as int);
        first_found_facts(exists, k as int);
        assert(t.len() == k);
    }
    search_steps(exists, 0);
    first_found_facts(exists, PROBED_CANDIDATES as int);
}

proof fn search_steps(exists: Seq<bool>, k: nat)
    requires
        exists.len() == PROBED_CANDIDATES,
        k <= PROBED_CANDIDATES,
        first_found(exists, k as int) is None,
    ensures
        first_found(exists, PROBED_CANDIDATES as int) matches Some(i) ==> search_outcome(exists, k)
            == Probe::Use(probed_candidate(i)),
        first_found(exists, PROBED_CANDIDATES as int) is None ==> search_outcome(exists, k)
            == Probe::CreateDefault,
    decreases PROBED_CANDIDATES - k,
{
    let t = exists.take(k as int);
    assert(t.len() == k);
    first_found_prefix(exists, k as int, k as int);
    first_found_facts(exists, PROBED_CANDIDATES as int);
    first_found_facts(exists, k as int);
    if k < PROBED_CANDIDATES {
        first_found_prefix(exists, k as int + 1, k as int + 1);
        assert(exists.take(k as int + 1).len() == k + 1);
        assert(first_found(exists, k as int + 1) == if exists[k as int] { Some(k as int) } else { None::<int> });
        if exists[k as int] {
            assert(first_found(exists, PROBED_CANDIDATES as int) == Some(k as int)) by {
                first_found_stable(exists, k as int + 1, PROBED_CANDIDATES as int);
            }
            assert(search_outcome(exists, (k + 1) as nat) == Probe::Use(probed_candidate(k as int)));
        } else {
            search_steps(exists, k + 1);
        }
    }
}

proof fn first_found_stable(found: Seq<bool>, m: int, n: int)
    requires
        0 <= m <= n <= found.len(),
        first_found(found, m) is Some,
    ensures
        first_found(found, n) == first_found(found, m),
    decreases n - m,
{
    if n > m {
        first_found_stable(found, m, n - 1);
    }
}

/// With an explicit path the search uses it at once, whatever the other candidates hold: it
/// never falls back to them.
pub proof fn law_explicit_path_is_final(found: Seq<bool>)
    ensures
        probe_spec(true, found) == Probe::Use(Candidate::Explicit),
{
}

/// Why the configuration could not be had; each stops the process.
#[derive(Clone, Debug, PartialEq, Eq)]
pub enum ConfigError {
    /// The chosen file exists but could not be read.
    ReadError { path: String, message: String },
    /// The chosen file does not hold a configuration.
    ParseError { path: String, message: String },
    /// The default configuration could not be written.
    WriteError { path: String, message: String },
    /// No file existed; a default one was written for the operator to edit before a restart.
    CreatedNeedsReview { path: String },
}

/// What came of reading and parsing the chosen file.
#[derive(Clone, Debug, PartialEq, Eq)]
pub enum LoadEvent {
    ReadFailed(String),
    ParseFailed(String),
    Parsed(Config),
}

/// Result of loading the file at `path`.
pub fn finish_load(path: String, event: LoadEvent) -> (r: Result<Config, ConfigError>)
    ensures
        event matches LoadEvent::Parsed(c) ==> r == Ok::<Config, ConfigError>(c),
        event matches LoadEvent::ReadFailed(m) ==> r == Err::<Config, ConfigError>(
            ConfigError::ReadError { path, message: m },
        ),
        event matches LoadEvent::ParseFailed(m) ==> r == Err::<Config, ConfigError>(
            ConfigError::ParseError { path, message: m },
        ),
{
    match event {
        LoadEvent::Parsed(c) => Ok(c),
        LoadEvent::ReadFailed(message) => Err(ConfigError::ReadError { path, message }),
        LoadEvent::ParseFailed(message) => Err(ConfigError::ParseError { path, message }),
    }
}

/// Path the default configuration is written to.
pub open spec fn default_path_text() -> Seq<char> {
    "./erp.toml"@
}

/// Path the default configuration is written to.
pub fn default_config_path() -> (r: String)
    ensures
        r@ == default_path_text(),
{
    "./erp.toml".to_owned()
}

/// Result of writing the default configuration: the run stops either way, asking the operator to
/// edit the new file, or reporting the failed write.
pub fn finish_create(write: Result<(), String>) -> (r: ConfigError)
    ensures
        write is Ok ==> (r matches ConfigError::CreatedNeedsReview { path } && path@ == default_path_text()),
        write matches Err(m) ==> (r matches ConfigError::WriteError { path, message } && path@
            == default_path_text() && message == m),
{
    let path = default_config_path();
    match write {
        Ok(()) => ConfigError::CreatedNeedsReview { path },
        Err(message) => ConfigError::WriteError { path, message },
    }
}

/// `name` placed in directory `dir`, as a path is extended by one component.
pub open spec fn joined_path(dir: Seq<char>, name: Seq<char>) -> Seq<char> {
    if dir.len() == 0 || dir.last() == '/' {
        dir + name
    } else {
        dir + "/"@ + name
    }
}

/// File name of the configuration in the working and user directories.
pub open spec fn file_name_text() -> Seq<char> {
    "erp.toml"@
}

/// The path of a candidate; the user candidate lies in `user_config_dir`, the explicit one is
/// `explicit`.
pub open spec fn candidate_path_spec(c: Candidate, explicit: Seq<char>, user_config_dir: Seq<char>) -> Seq<char> {
    match c {
        Candidate::Explicit => explicit,
        Candidate::WorkingDir => default_path_text(),
        Candidate::UserConfigDir => joined_path(user_config_dir, file_name_text()),
        Candidate::System => "/etc/erp.toml"@,
    }
}

/// The path of a candidate.
pub fn candidate_path(c: Candidate, explicit: &str, user_config_dir: &str) -> (r: String)
    ensures
        r@ == candidate_path_spec(c, explicit@, user_config_dir@),
{
    match c {
        Candidate::Explicit => explicit.to_owned(),
        Candidate::WorkingDir => default_config_path(),
        Candidate::UserConfigDir => {
            let mut p = user_config_dir.to_owned();
            let n = user_config_dir.unicode_len();
            if n > 0 && user_config_dir.get_char(n - 1) != '/' {
                p.append("/");
            }
            p.append("erp.toml");
            p
        },
        Candidate::System => "/etc/erp.toml".to_owned(),
    }
}

/// Relies on `dirs::config_dir`: the user's configuration directory, if the platform has one.
#[verifier::external_body]
fn platform_config_dir() -> (r: Option<String>) {
    dirs::config_dir().map(|p| p.to_string_lossy().into_owned())
}

/// The given directory, or the working directory where there is none.
pub fn config_dir_or_working(dir: Option<String>) -> (r: String)
    ensures
        dir matches Some(d) ==> r == d,
        dir is None ==> r@ == "."@,
{
    match dir {
        Some(d) => d,
        None => ".".to_owned(),
    }
}

/// The user's configuration directory as the platform gives it, or the working directory where
/// it gives none.
pub fn user_config_dir() -> (r: String) {
    config_dir_or_working(platform_config_dir())
}

} // verus!
