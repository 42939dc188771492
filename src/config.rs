//! The configuration of a process run, its defaults, and the names its enums are stored under.
use vstd::prelude::*;
use crate::logging::LogArgs;

verus! {

/// Deployment environment.
#[derive(Copy, Clone, Debug, PartialEq, Eq, Structural)]
pub enum Env {
    PROD,
    DEV,
}

/// An IP address.
#[derive(Copy, Clone, Debug, PartialEq, Eq, Structural)]
pub enum IpAddress {
    V4(u8, u8, u8, u8),
    V6(u16, u16, u16, u16, u16, u16, u16, u16),
}

/// Address the server binds to.
#[derive(Copy, Clone, Debug, PartialEq, Eq, Structural)]
pub struct SiteAddr {
    pub ip: IpAddress,
    pub port: u16,
}

/// Options of the rendering server.
#[derive(Clone, Debug, PartialEq, Eq)]
pub struct ServerOptions {
    /// Name of the generated client artifacts.
    pub output_name: String,
    /// Directory of the built site.
    pub site_root: String,
    /// Subdirectory of `site_root` holding the client artifacts.
    pub site_pkg_dir: String,
    /// Deployment environment.
    pub env: Env,
    /// Address connections are accepted on.
    pub site_addr: SiteAddr,
    /// Port of the live-reload watcher.
    pub reload_port: u32,
}

/// Settings of one process run; never changed once loaded.
#[derive(Clone, Debug, PartialEq, Eq)]
pub struct Config {
    pub logging: LogArgs,
    pub leptos_options: ServerOptions,
    pub database_url: String,
    pub migrate_db_on_load: bool,
}

/// Port the server listens on unless configured otherwise.
pub const DEFAULT_PORT: u16 = 3000;

/// Port of the reload watcher unless configured otherwise.
pub const DEFAULT_RELOAD_PORT: u32 = 3001;

/// The built-in server options.
pub open spec fn is_default_server_options(o: ServerOptions) -> bool {
    &&& o.output_name@ == "erpc"@
    &&& o.site_root@ == "target/site"@
    &&& o.site_pkg_dir@ == "pkg"@
    &&& o.env == Env::PROD
    &&& o.site_addr == SiteAddr { ip: IpAddress::V4(127, 0, 0, 1), port: DEFAULT_PORT }
    &&& o.reload_port == DEFAULT_RELOAD_PORT
}

/// A configuration built from the given server options and the built-in values for the rest.
pub open spec fn is_default_with(c: Config, o: ServerOptions) -> bool {
    &&& c.logging.verbosity == crate::logging::Level::Info
    &&& c.logging.log_format == crate::logging::LogFormat::Compact
    &&& c.logging.log_filter@ == Seq::<char>::empty()
    &&& c.leptos_options == o
    &&& c.database_url@ == "sqlite:erp.db"@
    &&& c.migrate_db_on_load
}

/// The built-in server options: loopback on the default port, production environment.
pub fn default_server_options() -> (r: ServerOptions)
    ensures
        is_default_server_options(r),
{
    ServerOptions {
        output_name: "erpc".to_owned(),
        site_root: "target/site".to_owned(),
        site_pkg_dir: "pkg".to_owned(),
        env: Env::PROD,
        site_addr: SiteAddr { ip: IpAddress::V4(127, 0, 0, 1), port: DEFAULT_PORT },
        reload_port: DEFAULT_RELOAD_PORT,
    }
}

impl Config {
    /// The default configuration, taking server options from the environment where it gave some.
    pub fn with_server_options(from_env: Option<ServerOptions>) -> (r: Config)
        ensures
            from_env matches Some(o) ==> is_default_with(r, o),
            from_env is None ==> is_default_server_options(r.leptos_options),
            is_default_with(r, r.leptos_options),
    {
        let leptos_options = match from_env {
            Some(o) => o,
            None => default_server_options(),
        };
        Config {
            logging: LogArgs::default(),
            leptos_options,
            database_url: "sqlite:erp.db".to_owned(),
            migrate_db_on_load: true,
        }
    }
}

impl Default for Config {
    fn default() -> (r: Config)
        ensures
            is_default_with(r, r.leptos_options),
            is_default_server_options(r.leptos_options),
    {
        Config::with_server_options(None)
    }
}

/// The name an environment is stored under.
pub open spec fn env_text(e: Env) -> Seq<char> {
    match e {
        Env::PROD => "PROD"@,
        Env::DEV => "DEV"@,
    }
}

/// Distinct environments are written differently, so what is written reads back as the same
/// environment.
pub proof fn law_env_text_round_trip(a: Env, b: Env)
    ensures
        env_text(a) == env_text(b) ==> a == b,
{
    reveal_strlit("PROD");
    reveal_strlit("DEV");
    assert("PROD"@.len() != "DEV"@.len());
}

/// Writes an environment as the configuration file stores it.
pub fn env_name(e: Env) -> (r: &'static str)
    ensures
        r@ == env_text(e),
{
    match e {
        Env::PROD => "PROD",
        Env::DEV => "DEV",
    }
}

/// Reads an environment as the configuration file stores it; any other text names none.
pub fn env_from_name(s: &str) -> (r: Option<Env>)
    ensures
        r matches Some(e) ==> s@ == env_text(e),
        r is None ==> s@ != env_text(Env::PROD) && s@ != env_text(Env::DEV),
{
    let prod = "PROD";
    let dev = "DEV";
    if str_eq(s, prod) {
        Some(Env::PROD)
    } else if str_eq(s, dev) {
        Some(Env::DEV)
    } else {
        None
    }
}

/// Whether two strings hold the same characters.
pub fn str_eq(a: &str, b: &str) -> (r: bool)
    ensures
        r == (a@ == b@),
{
    let n = a.unicode_len();
    if n != b.unicode_len() {
        return false;
    }
    let mut i: usize = 0;
    while i < n
        invariant
            n == a@.len(),
            n == b@.len(),
            i <= n,
            forall|j: int| 0 <= j < i ==> a@[j] == b@[j],
        decreases n - i,
    {
        if a.get_char(i) != b.get_char(i) {
            return false;
        }
        i = i + 1;
    }
    assert(a@ =~= b@);
    true
}

} // verus!
