use vstd::prelude::*;

verus! {

/// The host used when the configuration names none.
pub open spec fn spec_default_host() -> Seq<char> {
    "http://127.0.0.1"@
}

/// The port used when the configuration names none.
pub open spec fn spec_default_port() -> u16 {
    11434
}

/// Host of the generation service when the configuration leaves it out.
pub fn default_host() -> (r: String)
    ensures
        r@ == spec_default_host(),
{
    String::from_str("http://127.0.0.1")
}

/// Port of the generation service when the configuration leaves it out.
pub fn default_port() -> (r: u16)
    ensures
        r == spec_default_port(),
{
    11434
}

/// Settings of a session, read once at startup.
pub struct Config {
    pub model: String,
    pub host: String,
    pub port: u16,
}

impl Config {
    /// Builds the settings, filling in the defaults for what was left out.
    pub fn new(model: String, host: Option<String>, port: Option<u16>) -> (r: Config)
        ensures
            r.model@ == model@,
            r.host@ == (match host {
                Some(h) => h@,
                None => spec_default_host(),
            }),
            r.port == (match port {
                Some(p) => p,
                None => spec_default_port(),
            }),
    {
        let host = match host {
            Some(h) => h,
            None => default_host(),
        };
        let port = match port {
            Some(p) => p,
            None => default_port(),
        };
        Config { model, host, port }
    }
}

} // verus!
