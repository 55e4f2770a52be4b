//! Where a service listens or connects, and where its TLS material lies.

use vstd::prelude::*;
use vstd::string::StringExecFns;

use crate::text::{decimal, joined, join_path, push_decimal};

verus! {

/// Paths of the certificate chain, the private key and the trust anchors.
#[derive(Debug, Clone, PartialEq, Eq)]
pub struct TlsConfig {
    pub cert_file: String,
    pub key_file: String,
    pub ca_file: String,
}

impl TlsConfig {
    /// TLS material under directory `base`, by its fixed file names.
    pub open spec fn in_dir_spec(self, base: Seq<char>) -> bool {
        &&& self.cert_file@ == joined(base, "server.pem"@)
        &&& self.key_file@ == joined(base, "server-key.pem"@)
        &&& self.ca_file@ == joined(base, "server.pem"@)
    }

    /// Create TLS config from explicit paths.
    pub fn new(cert_file: String, key_file: String, ca_file: String) -> (r: Self)
        ensures
            r == (TlsConfig { cert_file, key_file, ca_file }),
    {
        TlsConfig { cert_file, key_file, ca_file }
    }

    /// The TLS material of directory `base`: `server.pem` serves as
    /// certificate chain and as trust anchor, `server-key.pem` as key.
    pub fn in_dir(base: &str) -> (r: Self)
        ensures
            r.in_dir_spec(base@),
    {
        TlsConfig {
            cert_file: join_path(base, "server.pem"),
            key_file: join_path(base, "server-key.pem"),
            ca_file: join_path(base, "server.pem"),
        }
    }
}

/// Scheme of the service's URL.
#[derive(Debug, Clone, Copy, PartialEq, Eq, Structural)]
pub enum ProtocolHint {
    Wss,
    Ws,
}

impl ProtocolHint {
    pub open spec fn label(self) -> Seq<char> {
        match self {
            ProtocolHint::Wss => "wss"@,
            ProtocolHint::Ws => "ws"@,
        }
    }

    pub fn as_str(&self) -> (r: &'static str)
        ensures
            r@ == self.label(),
    {
        match self {
            ProtocolHint::Wss => "wss",
            ProtocolHint::Ws => "ws",
        }
    }
}

impl Default for ProtocolHint {
    fn default() -> (r: Self)
        ensures
            r == ProtocolHint::Wss,
    {
        ProtocolHint::Wss
    }
}

/// Address and TLS settings of a service.
#[derive(Debug, Clone, PartialEq, Eq)]
pub struct AddrConfig {
    pub host: String,
    pub port: u16,
    pub tls: TlsConfig,
    pub endpoint: String,
    pub protocol_hint: ProtocolHint,
    pub use_tls: bool,
}

/// Directory of the TLS material when none is given.
pub open spec fn default_cert_dir() -> Seq<char> {
    "certificates"@
}

impl AddrConfig {
    /// `host:port`.
    pub open spec fn addr_spec(self) -> Seq<char> {
        self.host@ + ":"@ + decimal(self.port as nat)
    }

    /// `scheme://host:port/endpoint`.
    pub open spec fn url_spec(self) -> Seq<char> {
        self.protocol_hint.label() + "://"@ + self.addr_spec() + self.endpoint@
    }

    /// A secure configuration at the root endpoint.
    pub fn new(host: &str, port: u16, tls: TlsConfig) -> (r: Self)
        ensures
            r.host@ == host@,
            r.port == port,
            r.tls == tls,
            r.endpoint@ == "/"@,
            r.protocol_hint == ProtocolHint::Wss,
            r.use_tls,
    {
        AddrConfig {
            host: String::from_str(host),
            port,
            tls,
            endpoint: String::from_str("/"),
            protocol_hint: ProtocolHint::Wss,
            use_tls: true,
        }
    }

    /// A secure configuration at the root endpoint, with the TLS material
    /// in the default directory `certificates`.
    pub fn from_env_defaults(host: &str, port: u16) -> (r: Self)
        ensures
            r.host@ == host@,
            r.port == port,
            r.tls.in_dir_spec(default_cert_dir()),
            r.endpoint@ == "/"@,
            r.protocol_hint == ProtocolHint::Wss,
            r.use_tls,
    {
        AddrConfig::new(host, port, TlsConfig::in_dir("certificates"))
    }

    /// The full URL of the service.
    pub fn ws_url(&self) -> (r: String)
        ensures
            r@ == self.url_spec(),
    {
        let mut r = String::from_str(self.protocol_hint.as_str());
        r.append("://");
        r.append(self.host.as_str());
        r.append(":");
        push_decimal(&mut r, self.port as u64);
        r.append(self.endpoint.as_str());
        proof {
            assert(r@ =~= self.url_spec());
        }
        r
    }

    /// The `host:port` address.
    pub fn addr(&self) -> (r: String)
        ensures
            r@ == self.addr_spec(),
    {
        let mut r = String::from_str(self.host.as_str());
        r.append(":");
        push_decimal(&mut r, self.port as u64);
        r
    }

    /// The same configuration at another endpoint.
    pub fn with_endpoint(self, endpoint: &str) -> (r: Self)
        ensures
            r.endpoint@ == endpoint@,
            r.host == self.host,
            r.port == self.port,
            r.tls == self.tls,
            r.protocol_hint == self.protocol_hint,
            r.use_tls == self.use_tls,
    {
        let mut c = self;
        c.endpoint = String::from_str(endpoint);
        c
    }

    /// The same configuration without TLS, on the plain scheme.
    pub fn without_tls(self) -> (r: Self)
        ensures
            !r.use_tls,
            r.protocol_hint == ProtocolHint::Ws,
            r.host == self.host,
            r.port == self.port,
            r.tls == self.tls,
            r.endpoint == self.endpoint,
    {
        let mut c = self;
        c.use_tls = false;
        c.protocol_hint = ProtocolHint::Ws;
        c
    }
}

} // verus!
