//! The service's configuration, built once at start and then only read.

use vstd::prelude::*;
use vstd::string::StringExecFns;

verus! {

/// The whole configuration.
#[derive(Clone, Debug)]
pub struct Configuration {
    pub app: AppConfiguration,
    pub db: DBConfiguration,
    pub tls: TLSConfiguration,
}

/// The service's name and where it listens.
#[derive(Clone, Debug)]
pub struct AppConfiguration {
    pub name: String,
    pub host: String,
    pub port: String,
}

/// The database's name and credentials.
#[derive(Clone, Debug)]
pub struct DBConfiguration {
    pub name: String,
    pub username: String,
    pub password: String,
}

/// Where the certificate and its key are found; both empty where the service
/// speaks plain HTTP.
#[derive(Clone, Debug)]
pub struct TLSConfiguration {
    pub cert_path: String,
    pub key_path: String,
}

impl Default for AppConfiguration {
    fn default() -> (r: AppConfiguration)
        ensures
            r.name@.len() == 0,
            r.host@.len() == 0,
            r.port@.len() == 0,
    {
        AppConfiguration { name: String::new(), host: String::new(), port: String::new() }
    }
}

impl Default for DBConfiguration {
    fn default() -> (r: DBConfiguration)
        ensures
            r.name@.len() == 0,
            r.username@.len() == 0,
            r.password@.len() == 0,
    {
        DBConfiguration { name: String::new(), username: String::new(), password: String::new() }
    }
}

impl Default for TLSConfiguration {
    fn default() -> (r: TLSConfiguration)
        ensures
            r.cert_path@.len() == 0,
            r.key_path@.len() == 0,
    {
        TLSConfiguration { cert_path: String::new(), key_path: String::new() }
    }
}

impl Default for Configuration {
    fn default() -> (r: Configuration)
        ensures
            r.app.name@.len() == 0,
            r.app.host@.len() == 0,
            r.app.port@.len() == 0,
            r.db.name@.len() == 0,
            r.db.username@.len() == 0,
            r.db.password@.len() == 0,
            r.tls.cert_path@.len() == 0,
            r.tls.key_path@.len() == 0,
    {
        Configuration {
            app: AppConfiguration::default(),
            db: DBConfiguration::default(),
            tls: TLSConfiguration::default(),
        }
    }
}

impl Configuration {
    /// The service speaks HTTPS exactly when both a certificate and a key
    /// are configured.
    pub open spec fn spec_uses_tls(&self) -> bool {
        self.tls.key_path@.len() != 0 && self.tls.cert_path@.len() != 0
    }

    /// Whether the service speaks HTTPS.
    pub fn uses_tls(&self) -> (r: bool)
        ensures
            r == self.spec_uses_tls(),
    {
        !self.tls.key_path.as_str().is_empty() && !self.tls.cert_path.as_str().is_empty()
    }

    /// The address to listen on: host, a colon, port.
    pub fn bind_address(&self) -> (r: String)
        ensures
            r@ == self.app.host@ + ":"@ + self.app.port@,
    {
        let mut address = self.app.host.clone();
        address.append(":");
        address.append(self.app.port.as_str());
        address
    }
}

} // verus!
