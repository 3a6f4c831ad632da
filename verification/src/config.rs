//! The configuration of the server instances of one process.

use vstd::prelude::*;
use vstd::string::*;
use crate::text::{chars_of, decimal, str_eq, trim, trimmed, u16_to_string};
use crate::util::{
    api_url_spec, default_port_suffix, get_api_url, has_explicit_port, pad_host, pad_host_spec,
    pads_stably, lemma_default_port_suffix_pads_alike,
};

verus! {

/// The port that a host listens on when none is named.
pub const DEFAULT_PORT: u16 = 7000;

pub type ConfigResult<T> = Result<T, ConfigError>;

/// Why a configuration was refused.
#[derive(Clone, Debug, PartialEq, Eq)]
pub enum ConfigError {
    /// The file at this path could not be read; the second field says why.
    ReadConfigFile(String, String),
    /// The file at this path is no valid configuration; the second field says why.
    ParseConfigFile(String, String),
    /// The file at this path names no server.
    NoServers(String),
    InvalidServerEntry { index: usize, reason: String },
    DuplicatePort { port: u16, first_index: usize, second_index: usize },
    DuplicateDatabaseUrl { database_url: String, first_index: usize, second_index: usize },
}

/// The configuration of one server instance.
#[derive(Clone, Debug, PartialEq, Eq)]
pub struct ServerConfig {
    pub local_host_raw: String,
    pub database_url: String,
    pub port: u16,
    pub key_dir: String,
}

/// One `[[servers]]` entry as the file gives it.
#[derive(Debug, PartialEq, Eq)]
pub struct RawServerConfig {
    pub local_host: String,
    pub database_url: String,
    pub port: u16,
    pub key_dir: Option<String>,
}

impl Clone for RawServerConfig {
    fn clone(&self) -> (r: Self)
        ensures
            r == *self,
    {
        RawServerConfig {
            local_host: self.local_host.clone(),
            database_url: self.database_url.clone(),
            port: self.port,
            key_dir: self.key_dir.clone(),
        }
    }
}

/// The local host in short form: with its port unless that is the default.
pub open spec fn local_host_spec(raw: Seq<char>, port: u16) -> Seq<char> {
    if port == DEFAULT_PORT {
        raw
    } else {
        explicit_host_spec(raw, port)
    }
}

/// The local host with its port written out.
pub open spec fn explicit_host_spec(raw: Seq<char>, port: u16) -> Seq<char> {
    raw + ":"@ + decimal(port as nat)
}

/// Whether `host` names another host than `local`: it is given, and its
/// padded form differs from that of `local`.
pub open spec fn is_remote_spec(local: Seq<char>, host: Option<Seq<char>>) -> bool {
    match host {
        Some(h) => pad_host_spec(h) != pad_host_spec(local),
        None => false,
    }
}

/// The directory that holds the keys of the instance on `port`, under the
/// home directory `home`.
pub open spec fn default_key_dir_spec(home: Seq<char>, port: u16) -> Seq<char> {
    let separator = if home.len() == 0 || home.last() == '/' {
        Seq::<char>::empty()
    } else {
        "/"@
    };
    home + separator + ".local/share/runelink/keys/"@ + decimal(port as nat)
}

/// Whether an earlier entry than `i` has the port of entry `i`.
pub open spec fn is_port_repeated_at(configs: Seq<ServerConfig>, i: int) -> bool {
    exists|j: int| 0 <= j < i && configs[j].port == configs[i].port
}

/// Whether an earlier entry than `i` has the database URL of entry `i`.
pub open spec fn is_database_url_repeated_at(configs: Seq<ServerConfig>, i: int) -> bool {
    exists|j: int| 0 <= j < i && configs[j].database_url@ == configs[i].database_url@
}

/// Whether no entry below `n` repeats a port or a database URL of an earlier one.
pub open spec fn is_unique_below(configs: Seq<ServerConfig>, n: int) -> bool {
    forall|i: int|
        0 <= i < n ==> !is_port_repeated_at(configs, i) && !is_database_url_repeated_at(
            configs,
            i,
        )
}

/// What the check for shared resources answers on `configs`: the first entry,
/// in order, that repeats a port or else a database URL of an earlier entry
/// is reported with that earlier entry.
pub open spec fn is_unique_resources_result(
    configs: Seq<ServerConfig>,
    r: ConfigResult<()>,
) -> bool {
    match r {
        Ok(()) => is_unique_below(configs, configs.len() as int),
        Err(ConfigError::DuplicatePort { port, first_index, second_index }) => {
            &&& first_index < second_index < configs.len()
            &&& is_unique_below(configs, second_index as int)
            &&& configs[first_index as int].port == port
            &&& configs[second_index as int].port == port
        },
        Err(ConfigError::DuplicateDatabaseUrl { database_url, first_index, second_index }) => {
            &&& first_index < second_index < configs.len()
            &&& is_unique_below(configs, second_index as int)
            &&& !is_port_repeated_at(configs, second_index as int)
            &&& configs[first_index as int].database_url@ == database_url@
            &&& configs[second_index as int].database_url@ == database_url@
        },
        Err(_) => false,
    }
}

/// What resolving the entry `raw` at `index` answers.
pub open spec fn is_resolved(
    raw: RawServerConfig,
    index: usize,
    home: Option<Seq<char>>,
    r: ConfigResult<ServerConfig>,
) -> bool {
    if trimmed(raw.local_host@).len() == 0 {
        r matches Err(ConfigError::InvalidServerEntry { index: i, reason }) && i == index
            && reason@ == "local_host cannot be empty"@
    } else if trimmed(raw.database_url@).len() == 0 {
        r matches Err(ConfigError::InvalidServerEntry { index: i, reason }) && i == index
            && reason@ == "database_url cannot be empty"@
    } else {
        r matches Ok(c) && c.local_host_raw@ == trimmed(raw.local_host@) && c.database_url@
            == trimmed(raw.database_url@) && c.port == raw.port && c.key_dir@ == (match raw.key_dir {
            Some(d) => d@,
            None => default_key_dir_spec(home.unwrap(), raw.port),
        })
    }
}

/// Whether resolving `raw` needs the home directory: it is valid and names
/// no key directory.
pub open spec fn needs_home(raw: RawServerConfig) -> bool {
    &&& trimmed(raw.local_host@).len() > 0
    &&& trimmed(raw.database_url@).len() > 0
    &&& raw.key_dir.is_none()
}

/// The port of an entry that names none.
pub fn default_port() -> (r: u16)
    ensures
        r == DEFAULT_PORT,
{
    7000
}

/// The default key directory of the instance on `port`:
/// `.local/share/runelink/keys/<port>` under `home`.
pub fn default_key_dir(home: &str, port: u16) -> (r: String)
    ensures
        r@ == default_key_dir_spec(home@, port),
{
    let v = chars_of(home);
    let mut path = String::from_str(home);
    if v.len() > 0 && v[v.len() - 1] != '/' {
        path.append("/");
    }
    path.append(".local/share/runelink/keys/");
    path.append(u16_to_string(port).as_str());
    path
}

impl RawServerConfig {
    /// Checks and completes one entry: host and database URL are trimmed and
    /// must not be empty; a missing key directory is the default one under
    /// `home`.
    pub fn resolve(self, index: usize, home: Option<&str>) -> (r: ConfigResult<ServerConfig>)
        requires
            needs_home(self) ==> home.is_some(),
        ensures
            is_resolved(
                self,
                index,
                match home {
                    Some(h) => Some(h@),
                    None => None,
                },
                r,
            ),
    {
        let local_host = String::from_str(trim(self.local_host.as_str()));
        if local_host.as_str().unicode_len() == 0 {
            return Err(
                ConfigError::InvalidServerEntry {
                    index,
                    reason: String::from_str("local_host cannot be empty"),
                },
            );
        }
        let database_url = String::from_str(trim(self.database_url.as_str()));
        if database_url.as_str().unicode_len() == 0 {
            return Err(
                ConfigError::InvalidServerEntry {
                    index,
                    reason: String::from_str("database_url cannot be empty"),
                },
            );
        }
        let key_dir = match self.key_dir {
            Some(d) => d,
            None => default_key_dir(home.unwrap(), self.port),
        };
        Ok(ServerConfig { local_host_raw: local_host, database_url, port: self.port, key_dir })
    }
}

/// Checks that no two entries share a port or a database URL.
pub fn validate_unique_resources(configs: &Vec<ServerConfig>) -> (r: ConfigResult<()>)
    ensures
        is_unique_resources_result(configs@, r),
{
    let n = configs.len();
    let mut i: usize = 0;
    while i < n
        invariant
            n == configs.len(),
            i <= n,
            is_unique_below(configs@, i as int),
        decreases n - i,
    {
        let mut j: usize = 0;
        while j < i
            invariant
                n == configs.len(),
                i < n,
                j <= i,
                is_unique_below(configs@, i as int),
                forall|k: int| 0 <= k < j ==> configs@[k].port != configs@[i as int].port,
            decreases i - j,
        {
            if configs[j].port == configs[i].port {
                return Err(
                    ConfigError::DuplicatePort {
                        port: configs[i].port,
                        first_index: j,
                        second_index: i,
                    },
                );
            }
            j = j + 1;
        }
        let mut j: usize = 0;
        while j < i
            invariant
                n == configs.len(),
                i < n,
                j <= i,
                is_unique_below(configs@, i as int),
                !is_port_repeated_at(configs@, i as int),
                forall|k: int|
                    0 <= k < j ==> configs@[k].database_url@ != configs@[i as int].database_url@,
            decreases i - j,
        {
            if str_eq(configs[j].database_url.as_str(), configs[i].database_url.as_str()) {
                return Err(
                    ConfigError::DuplicateDatabaseUrl {
                        database_url: configs[i].database_url.clone(),
                        first_index: j,
                        second_index: i,
                    },
                );
            }
            j = j + 1;
        }
        i = i + 1;
    }
    Ok(())
}

/// What reading the entries of the file at `path` answers: the first entry
/// that does not resolve decides; else the check for shared resources does.
pub open spec fn is_entries_result(
    path: Seq<char>,
    entries: Seq<RawServerConfig>,
    home: Option<Seq<char>>,
    r: ConfigResult<Vec<ServerConfig>>,
) -> bool {
    if entries.len() == 0 {
        r matches Err(ConfigError::NoServers(p)) && p@ == path
    } else if exists|i: int| 0 <= i < entries.len() && is_invalid_entry(entries[i]) {
        let i = choose|i: int| is_first_invalid_entry(entries, i);
        r matches Err(e) && is_resolved(entries[i], i as usize, home, Err(e))
    } else {
        match r {
            Ok(configs) => {
                &&& configs@.len() == entries.len()
                &&& forall|i: int|
                    0 <= i < entries.len() ==> is_resolved(
                        #[trigger] entries[i],
                        i as usize,
                        home,
                        Ok(configs@[i]),
                    )
                &&& is_unique_below(configs@, configs@.len() as int)
            },
            Err(e) => exists|configs: Seq<ServerConfig>|
                {
                    &&& configs.len() == entries.len()
                    &&& forall|i: int|
                        0 <= i < entries.len() ==> is_resolved(
                            #[trigger] entries[i],
                            i as usize,
                            home,
                            Ok(configs[i]),
                        )
                    &&& !(e is NoServers)
                    &&& is_unique_resources_result(configs, Err(e))
                },
        }
    }
}

/// Whether an entry is refused: its host or its database URL is empty once trimmed.
pub open spec fn is_invalid_entry(raw: RawServerConfig) -> bool {
    trimmed(raw.local_host@).len() == 0 || trimmed(raw.database_url@).len() == 0
}

/// Whether `i` is the first refused entry.
pub open spec fn is_first_invalid_entry(entries: Seq<RawServerConfig>, i: int) -> bool {
    &&& 0 <= i < entries.len()
    &&& is_invalid_entry(entries[i])
    &&& forall|k: int| 0 <= k < i ==> !is_invalid_entry(entries[k])
}

impl ServerConfig {
    /// The configurations that the entries of the file at `path` give, in
    /// order. Fails where there is no entry, where an entry is refused, and
    /// where two entries share a port or a database URL.
    pub fn from_entries(path: &str, entries: Vec<RawServerConfig>, home: Option<&str>) -> (r:
        ConfigResult<Vec<Self>>)
        requires
            (exists|i: int| 0 <= i < entries@.len() && needs_home(entries@[i])) ==> home.is_some(),
        ensures
            is_entries_result(
                path@,
                entries@,
                match home {
                    Some(h) => Some(h@),
                    None => None,
                },
                r,
            ),
    {
        let ghost home_view: Option<Seq<char>> = match home {
            Some(h) => Some(h@),
            None => None,
        };
        if entries.len() == 0 {
            return Err(ConfigError::NoServers(String::from_str(path)));
        }
        let mut configs: Vec<ServerConfig> = Vec::new();
        let mut i: usize = 0;
        while i < entries.len()
            invariant
                i <= entries.len(),
                configs@.len() == i,
                home_view == (match home {
                    Some(h) => Some(h@),
                    None => None,
                }),
                (exists|k: int| 0 <= k < entries@.len() && needs_home(entries@[k]))
                    ==> home.is_some(),
                forall|k: int| 0 <= k < i ==> !is_invalid_entry(entries@[k]),
                forall|k: int|
                    0 <= k < i ==> is_resolved(
                        #[trigger] entries@[k],
                        k as usize,
                        home_view,
                        Ok(configs@[k]),
                    ),
            decreases entries.len() - i,
        {
            let raw = entries[i].clone();
            match raw.resolve(i, home) {
                Ok(config) => {
                    configs.push(config);
                },
                Err(e) => {
                    proof {
                        assert(is_first_invalid_entry(entries@, i as int));
                    }
                    return Err(e);
                },
            }
            i = i + 1;
        }
        match validate_unique_resources(&configs) {
            Ok(()) => Ok(configs),
            Err(e) => Err(e),
        }
    }

    /// The local host in short form: with the port unless it is the default.
    pub fn local_host(&self) -> (r: String)
        ensures
            r@ == local_host_spec(self.local_host_raw@, self.port),
    {
        if self.port == 7000 {
            self.local_host_raw.clone()
        } else {
            self.local_host_with_explicit_port()
        }
    }

    /// The local host with its port written out, as machines address it.
    pub fn local_host_with_explicit_port(&self) -> (r: String)
        ensures
            r@ == explicit_host_spec(self.local_host_raw@, self.port),
    {
        self.local_host_raw.clone().concat(":").concat(u16_to_string(self.port).as_str())
    }

    /// The base URL of this host's HTTP API; it is also the host's issuer name.
    pub fn api_url(&self) -> (r: String)
        ensures
            r@ == api_url_spec(explicit_host_spec(self.local_host_raw@, self.port)),
    {
        get_api_url(self.local_host_with_explicit_port().as_str())
    }

    /// Whether `host` names another host than this one. No host at all is local.
    pub fn is_remote_host(&self, host: Option<&str>) -> (r: bool)
        ensures
            r == is_remote_spec(
                local_host_spec(self.local_host_raw@, self.port),
                match host {
                    Some(h) => Some(h@),
                    None => None,
                },
            ),
    {
        match host {
            Some(h) => {
                let theirs = pad_host(h);
                let ours = pad_host(self.local_host().as_str());
                !(theirs == ours)
            },
            None => false,
        }
    }
}

/// The local host is never remote.
pub proof fn lemma_local_host_is_local(raw: Seq<char>, port: u16)
    ensures
        !is_remote_spec(local_host_spec(raw, port), Some(local_host_spec(raw, port))),
{
}

/// On the default port, the local name with `:7000` written out is local,
/// exactly when the local name holds no port of its own and pads stably.
pub proof fn lemma_explicit_default_port_is_local(raw: Seq<char>)
    ensures
        !is_remote_spec(local_host_spec(raw, DEFAULT_PORT), Some(raw + default_port_suffix())) <==> (
        !has_explicit_port(raw) && pads_stably(raw)),
{
    lemma_default_port_suffix_pads_alike(raw);
}

} // verus!
