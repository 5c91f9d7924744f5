use script_analyzer::config::{
    AppConfiguration, Configuration, DBConfiguration, TLSConfiguration,
};

fn configuration(host: &str, port: &str, cert: &str, key: &str) -> Configuration {
    Configuration {
        app: AppConfiguration {
            name: "analyzer".to_string(),
            host: host.to_string(),
            port: port.to_string(),
        },
        db: DBConfiguration {
            name: "db".to_string(),
            username: "user".to_string(),
            password: "secret".to_string(),
        },
        tls: TLSConfiguration { cert_path: cert.to_string(), key_path: key.to_string() },
    }
}

#[test]
fn bind_address_joins_host_and_port() {
    assert_eq!(configuration("127.0.0.1", "8080", "", "").bind_address(), "127.0.0.1:8080");
    assert_eq!(configuration("", "", "", "").bind_address(), ":");
    assert_eq!(configuration("::1", "443", "", "").bind_address(), "::1:443");
}

#[test]
fn tls_needs_both_certificate_and_key() {
    assert!(configuration("h", "1", "cert.pem", "key.pem").uses_tls());
    assert!(!configuration("h", "1", "cert.pem", "").uses_tls());
    assert!(!configuration("h", "1", "", "key.pem").uses_tls());
    assert!(!configuration("h", "1", "", "").uses_tls());
}

#[test]
fn default_configuration_is_empty() {
    let c = Configuration::default();
    assert_eq!(c.app.name, "");
    assert_eq!(c.app.host, "");
    assert_eq!(c.app.port, "");
    assert_eq!(c.db.name, "");
    assert_eq!(c.db.username, "");
    assert_eq!(c.db.password, "");
    assert_eq!(c.tls.cert_path, "");
    assert_eq!(c.tls.key_path, "");
    assert!(!c.uses_tls());
    assert_eq!(c.bind_address(), ":");
}

#[test]
fn configuration_can_be_cloned() {
    let c = configuration("host", "80", "c", "k");
    let d = c.clone();
    assert_eq!(d.app.name, "analyzer");
    assert_eq!(d.bind_address(), "host:80");
    assert_eq!(d.db.password, "secret");
    assert!(d.uses_tls());
}
