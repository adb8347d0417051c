use vstd::prelude::*;
use std::sync::Arc;
use rustls::{ClientConfig, ServerConfig};
use crate::config::Config;
use crate::error::StartupError;
use crate::tls::{build_client_config, build_server_config, material_check, TrustMaterial};

verus! {

/// The proxy's shared, read-only state: both TLS contexts, built once, and
/// the configuration. Every connection's unit of work holds a clone.
#[derive(Clone)]
pub struct Proxy {
    server_cfg: Arc<ServerConfig>,
    client_cfg: Arc<ClientConfig>,
    app_cfg: Config,
}

/// The checks on all trust material, in the order they are made: the server
/// side, then the client side.
pub open spec fn startup_check(m: TrustMaterial) -> Result<(), StartupError> {
    if material_check(m.server_cert@, m.server_key@, m.ca@) is Err {
        material_check(m.server_cert@, m.server_key@, m.ca@)
    } else {
        material_check(m.client_cert@, m.client_key@, m.ca@)
    }
}

impl Proxy {
    /// The configuration the proxy was built from.
    pub closed spec fn spec_config(&self) -> Config {
        self.app_cfg
    }

    /// Builds both TLS contexts from the files' contents. Any failure is
    /// fatal: no proxy exists with a partly built trust context.
    pub fn new(cfg: Config, material: &TrustMaterial) -> (r: Result<Proxy, StartupError>)
        ensures
            material_check(material.server_cert@, material.server_key@, material.ca@) matches Err(e)
                ==> r == Err::<Proxy, StartupError>(e),
            startup_check(*material) is Err ==> r is Err,
            r matches Ok(p) ==> startup_check(*material) is Ok && p.spec_config() == cfg,
            r matches Err(e) ==> startup_check(*material) == Err::<(), StartupError>(e) || e == StartupError::Rejected,
    {
        let server_cfg = Arc::new(build_server_config(material)?);
        let client_cfg = Arc::new(build_client_config(material)?);
        Ok(Proxy { server_cfg, client_cfg, app_cfg: cfg })
    }

    /// The context that serves inbound handshakes.
    pub fn server_config(&self) -> &Arc<ServerConfig> {
        &self.server_cfg
    }

    /// The context that dials the upstream.
    pub fn client_config(&self) -> &Arc<ClientConfig> {
        &self.client_cfg
    }

    /// The configuration the proxy was built from.
    pub fn config(&self) -> (r: &Config)
        ensures
            *r == self.spec_config(),
    {
        &self.app_cfg
    }
}

} // verus!
