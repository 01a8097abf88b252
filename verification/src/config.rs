//! The configuration of the server.

use std::path::PathBuf;
use vstd::prelude::*;

verus! {

/// `std::path::PathBuf`, carried through as it is: nothing is said of what
/// a path holds.
#[verifier::external_type_specification]
#[verifier::external_body]
pub struct ExPathBuf(PathBuf);

/// Where the server listens, and whether it speaks TLS.
#[derive(Debug)]
pub struct ServerConfig {
    pub http_port: u16,
    pub https_port: u16,
    pub tls_enabled: bool,
    pub tls_options: Option<TlsOptions>,
    pub use_tokio_console: bool,
}

/// The files that hold the server's key and certificate.
#[derive(Debug)]
pub struct TlsOptions {
    pub key_path: PathBuf,
    pub cert_path: PathBuf,
}

impl Default for ServerConfig {
    fn default() -> (config: Self)
        ensures
            config.https_port == 443,
            config.http_port == 80,
            !config.tls_enabled,
            config.tls_options is None,
            !config.use_tokio_console,
    {
        Self {
            https_port: 443,
            http_port: 80,
            tls_enabled: false,
            tls_options: None,
            use_tokio_console: false,
        }
    }
}

impl ServerConfig {
    /// The certificate's file, where TLS is enabled and configured.
    pub fn get_cert_filepath(&self) -> (path: Option<&PathBuf>)
        ensures
            path == match self.tls_options {
                Some(options) if self.tls_enabled => Some(&options.cert_path),
                _ => None,
            },
    {
        match &self.tls_options {
            Some(options) => if self.tls_enabled {
                Some(&options.cert_path)
            } else {
                None
            },
            None => None,
        }
    }

    /// The key's file, where TLS is enabled and configured.
    pub fn get_key_filepath(&self) -> (path: Option<&PathBuf>)
        ensures
            path == match self.tls_options {
                Some(options) if self.tls_enabled => Some(&options.key_path),
                _ => None,
            },
    {
        match &self.tls_options {
            Some(options) => if self.tls_enabled {
                Some(&options.key_path)
            } else {
                None
            },
            None => None,
        }
    }
}

} // verus!
