use vstd::prelude::*;

verus! {

/// Command-line options: where the configuration file lives and the log level.
#[derive(Debug, Clone)]
pub struct Cli {
    pub config: String,
    pub log_level: String,
}

/// The paths of the five trust-material files.
#[derive(Debug, Clone)]
pub struct TlsConfig {
    pub ca_file: String,
    pub server_cert: String,
    pub server_key: String,
    pub client_cert: String,
    pub client_key: String,
}

/// The proxy's configuration: the listen address, the upstream address
/// (both `host:port`), and the trust-material paths.
#[derive(Debug, Clone)]
pub struct Config {
    pub listen: String,
    pub upstream: String,
    pub tls: TlsConfig,
}

} // verus!
