//! The settings that the core reads: where the callback listener lives, the client's
//! credentials, and how lyrics are cached.

use crate::text::{decimal_digits, push_decimal};
use vstd::prelude::*;
use vstd::string::StringExecFns;

verus! {

/// A read-only snapshot of the settings.
#[derive(Debug)]
pub struct Settings {
    /// Host of the local callback listener.
    pub host: String,
    /// Port of the local callback listener.
    pub port: u16,
    /// Client id that the provider issued.
    pub client_id: String,
    /// Client secret that the provider issued.
    pub client_secret: String,
    /// Filter of the diagnostic log.
    pub log_level: String,
    /// Whether fetched lyrics are kept on disk and looked up there first.
    pub caching_enabled: bool,
    /// Folder of the lyrics cache.
    pub cache_folder: String,
}

/// The address that the provider redirects the browser to, without the path.
pub open spec fn redirect_text(host: Seq<char>, port: u16) -> Seq<char> {
    "http://"@ + host + ":"@ + decimal_digits(port as nat)
}

/// Caching is on unless the settings say otherwise.
pub fn default_bool_true() -> (b: bool)
    ensures
        b,
{
    true
}

/// Credentials are empty until the settings give them.
pub fn default_string() -> (s: String)
    ensures
        s@ == Seq::<char>::empty(),
{
    String::new()
}

/// The log filter where the settings give none.
pub fn default_log_level() -> (s: String)
    ensures
        s@ == "trace"@,
{
    String::from_str("trace")
}

/// The cache folder where the settings give none.
pub fn default_cache_folder() -> (s: String)
    ensures
        s@ == "cache"@,
{
    String::from_str("cache")
}

/// The listener's host where the settings give none.
pub fn default_host() -> (s: String)
    ensures
        s@ == "127.0.0.1"@,
{
    String::from_str("127.0.0.1")
}

/// The listener's port where the settings give none.
pub fn default_port() -> (p: u16)
    ensures
        p == 8123,
{
    8123
}

impl Default for Settings {
    fn default() -> (s: Self)
        ensures
            s.host@ == "127.0.0.1"@,
            s.port == 8123,
            s.client_id@ == Seq::<char>::empty(),
            s.client_secret@ == Seq::<char>::empty(),
            s.log_level@ == "trace"@,
            s.caching_enabled,
            s.cache_folder@ == "cache"@,
    {
        Settings {
            host: default_host(),
            port: default_port(),
            client_id: default_string(),
            client_secret: default_string(),
            log_level: default_log_level(),
            caching_enabled: default_bool_true(),
            cache_folder: default_cache_folder(),
        }
    }
}

impl Clone for Settings {
    fn clone(&self) -> (copy: Self)
        ensures
            copy == *self,
    {
        Settings {
            host: self.host.clone(),
            port: self.port,
            client_id: self.client_id.clone(),
            client_secret: self.client_secret.clone(),
            log_level: self.log_level.clone(),
            caching_enabled: self.caching_enabled,
            cache_folder: self.cache_folder.clone(),
        }
    }
}

impl Settings {
    /// The address that the provider redirects the browser to, without the path:
    /// `http://`, the host, a colon and the port.
    pub fn redirect_url(&self) -> (url: String)
        ensures
            url@ == redirect_text(self.host@, self.port),
    {
        let mut url: String = String::from_str("http://");
        url.append(self.host.as_str());
        url.append(":");
        push_decimal(&mut url, self.port as u64);
        url
    }
}

} // verus!
