use vstd::prelude::*;
use crate::pairs::{lookup_last, pair_map};

verus! {

/// Configuration key that names the port to listen on.
pub const PORT_KEY: &'static str = "PORT";

/// Configuration key that names the host address to listen on.
pub const HOST_KEY: &'static str = "HOST";

/// Port used when the configuration names none.
pub const DEFAULT_PORT: &'static str = "8080";

/// Host used when the configuration names none.
pub const DEFAULT_HOST: &'static str = "0.0.0.0";

/// The value that `key` has in `values`, or `default` where it has none.
pub open spec fn setting_or(
    values: Map<Seq<char>, Seq<char>>,
    key: Seq<char>,
    default: Seq<char>,
) -> Seq<char> {
    if values.contains_key(key) {
        values[key]
    } else {
        default
    }
}

/// The `HOST:PORT` text that a listener binds to.
pub open spec fn address_of(host: Seq<char>, port: Seq<char>) -> Seq<char> {
    host + ":"@ + port
}

/// The host that a set of configuration values selects.
pub open spec fn host_of(values: Map<Seq<char>, Seq<char>>) -> Seq<char> {
    setting_or(values, HOST_KEY@, DEFAULT_HOST@)
}

/// The port that a set of configuration values selects.
pub open spec fn port_of(values: Map<Seq<char>, Seq<char>>) -> Seq<char> {
    setting_or(values, PORT_KEY@, DEFAULT_PORT@)
}

/// The typed settings of one listener: the module it serves and the address
/// it binds to.
pub struct ListenerConfig {
    pub module: String,
    pub host: String,
    pub port: String,
}

impl ListenerConfig {
    /// Reads `HOST` and `PORT` out of raw configuration pairs, falling back
    /// to the defaults; every other key is ignored.
    pub fn from_values(module: String, values: &Vec<(String, String)>) -> (r: ListenerConfig)
        ensures
            r.module == module,
            r.host@ == host_of(pair_map(values@)),
            r.port@ == port_of(pair_map(values@)),
    {
        let host = setting(values, HOST_KEY, DEFAULT_HOST);
        let port = setting(values, PORT_KEY, DEFAULT_PORT);
        ListenerConfig { module, host, port }
    }

    /// The `HOST:PORT` text to bind to.
    pub fn address(&self) -> (r: String)
        ensures
            r@ == address_of(self.host@, self.port@),
    {
        let with_colon = self.host.clone().concat(":");
        proof {
            reveal_strlit(":");
        }
        with_colon.concat(self.port.as_str())
    }
}

fn setting(values: &Vec<(String, String)>, key: &str, default: &str) -> (r: String)
    ensures
        r@ == setting_or(pair_map(values@), key@, default@),
{
    let key_owned = key.to_owned();
    match lookup_last(values, &key_owned) {
        Some(v) => v.clone(),
        None => default.to_owned(),
    }
}

/// With no configuration values at all, a listener binds to `0.0.0.0:8080`.
pub proof fn lemma_default_address()
    ensures
        address_of(host_of(Map::empty()), port_of(Map::empty())) == "0.0.0.0:8080"@,
{
    reveal_strlit("0.0.0.0");
    reveal_strlit("8080");
    reveal_strlit(":");
    reveal_strlit("0.0.0.0:8080");
    assert(address_of(host_of(Map::empty()), port_of(Map::empty())) =~= "0.0.0.0:8080"@);
}

} // verus!
