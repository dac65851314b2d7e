use vstd::prelude::*;
use crate::routing::PathConfig;
use rustls::ClientConfig as TlsClientConfig;
use rustls::ServerConfig as TlsServerConfig;

verus! {

/// The TLS configuration of the listening side.
#[verifier::external_type_specification]
#[verifier::external_body]
pub struct ExTlsServerConfig(TlsServerConfig);

/// The TLS configuration used for outbound connections.
#[verifier::external_type_specification]
#[verifier::external_body]
pub struct ExTlsClientConfig(TlsClientConfig);

/// The configuration of a server: its worker pool, port, TLS material and
/// bindings, fixed once built.
pub struct ServerConfig<H> {
    pub worker_threads: usize,
    pub worker_thread_name: String,
    pub port: u16,
    pub config_dir: String,
    pub tls_enabled: bool,
    pub tls_server_config: Option<TlsServerConfig>,
    pub tls_client_config: Option<TlsClientConfig>,
    pub paths: Vec<PathConfig<H>>,
}

/// The name of the worker thread numbered `id`: the prefix, `-`, then the
/// number.
pub fn worker_thread_name_of(prefix: &str, id: u64) -> (r: String)
    ensures
        r@ == prefix@ + seq!['-'] + crate::text::decimal(id as nat),
{
    let mut out = crate::text::chars_of(prefix);
    out.push('-');
    crate::text::push_decimal(&mut out, id);
    crate::text::string_of(&out)
}

/// The application protocols that a TLS listener offers, in order of
/// preference: `h2`, then `http/1.1`.
pub fn alpn_protocols() -> (r: Vec<Vec<u8>>)
    ensures
        r@.len() == 2,
        r@[0]@ == seq![104u8, 50u8],
        r@[1]@ == seq![104u8, 116u8, 116u8, 112u8, 47u8, 49u8, 46u8, 49u8],
{
    let h2: Vec<u8> = vec![104u8, 50u8];
    let http1: Vec<u8> = vec![104u8, 116u8, 116u8, 112u8, 47u8, 49u8, 46u8, 49u8];
    vec![h2, http1]
}

/// What the handlers of a server may read of its configuration: all of it
/// but the bindings. An exchange carries it under `APP_CONTEXT`.
pub struct AppContext {
    pub worker_threads: usize,
    pub worker_thread_name: String,
    pub port: u16,
    pub config_dir: String,
    pub tls_enabled: bool,
    pub tls_server_config: Option<TlsServerConfig>,
    pub tls_client_config: Option<TlsClientConfig>,
}

/// Assembles a `ServerConfig`.
pub struct ServerBuilder<H> {
    worker_threads: usize,
    worker_thread_name: String,
    config_dir: String,
    port: u16,
    tls_server_config: Option<TlsServerConfig>,
    tls_client_config: Option<TlsClientConfig>,
    paths: Vec<PathConfig<H>>,
}

/// The settings a builder holds so far.
pub ghost struct BuilderModel<H> {
    pub worker_threads: usize,
    pub worker_thread_name: Seq<char>,
    pub config_dir: Seq<char>,
    pub port: u16,
    pub tls_server_config: Option<TlsServerConfig>,
    pub tls_client_config: Option<TlsClientConfig>,
    pub paths: Seq<PathConfig<H>>,
}

impl<H> View for ServerBuilder<H> {
    type V = BuilderModel<H>;

    closed spec fn view(&self) -> BuilderModel<H> {
        BuilderModel {
            worker_threads: self.worker_threads,
            worker_thread_name: self.worker_thread_name@,
            config_dir: self.config_dir@,
            port: self.port,
            tls_server_config: self.tls_server_config,
            tls_client_config: self.tls_client_config,
            paths: self.paths@,
        }
    }
}

impl<H> ServerBuilder<H> {
    /// A builder with one worker thread named after `WT`, port 8080, no TLS
    /// and no binding.
    pub fn new() -> (r: Self)
        ensures
            r@.worker_threads == 1,
            r@.worker_thread_name == seq!['W', 'T'],
            r@.config_dir == seq!['.', '/', 'c', 'o', 'n', 'f', 'i', 'g', '.', 'j', 's', 'o', 'n'],
            r@.port == 8080,
            r@.tls_server_config is None,
            r@.tls_client_config is None,
            r@.paths.len() == 0,
    {
        ServerBuilder {
            worker_threads: 1,
            worker_thread_name: crate::text::string_of(&vec!['W', 'T']),
            config_dir: crate::text::string_of(
                &vec!['.', '/', 'c', 'o', 'n', 'f', 'i', 'g', '.', 'j', 's', 'o', 'n'],
            ),
            port: 8080,
            tls_server_config: None,
            tls_client_config: None,
            paths: Vec::new(),
        }
    }

    pub fn worker_threads(&mut self, value: usize) -> (r: &mut Self)
        ensures
            r@ == (BuilderModel { worker_threads: value, ..old(self)@ }),
            final(self)@ == final(r)@,
    {
        self.worker_threads = value;
        self
    }

    pub fn worker_thread_name(&mut self, value: &str) -> (r: &mut Self)
        ensures
            r@ == (BuilderModel { worker_thread_name: value@, ..old(self)@ }),
            final(self)@ == final(r)@,
    {
        self.worker_thread_name = crate::text::string_of(&crate::text::chars_of(value));
        self
    }

    pub fn port(&mut self, value: u16) -> (r: &mut Self)
        ensures
            r@ == (BuilderModel { port: value, ..old(self)@ }),
            final(self)@ == final(r)@,
    {
        self.port = value;
        self
    }

    pub fn tls_server_config(&mut self, value: TlsServerConfig) -> (r: &mut Self)
        ensures
            r@ == (BuilderModel { tls_server_config: Some(value), ..old(self)@ }),
            final(self)@ == final(r)@,
    {
        self.tls_server_config = Some(value);
        self
    }

    pub fn tls_client_config(&mut self, value: TlsClientConfig) -> (r: &mut Self)
        ensures
            r@ == (BuilderModel { tls_client_config: Some(value), ..old(self)@ }),
            final(self)@ == final(r)@,
    {
        self.tls_client_config = Some(value);
        self
    }

    /// Adds a binding after those added before; the first that matches a
    /// request serves it.
    pub fn add_path(&mut self, value: PathConfig<H>) -> (r: &mut Self)
        ensures
            r@ == (BuilderModel { paths: old(self)@.paths.push(value), ..old(self)@ }),
            final(self)@ == final(r)@,
    {
        self.paths.push(value);
        self
    }

    /// The configuration with the settings given; TLS is on when a server
    /// TLS configuration was given.
    pub fn build(self) -> (r: ServerConfig<H>)
        ensures
            r.worker_threads == self@.worker_threads,
            r.worker_thread_name@ == self@.worker_thread_name,
            r.config_dir@ == self@.config_dir,
            r.port == self@.port,
            r.tls_enabled == self@.tls_server_config is Some,
            r.tls_server_config == self@.tls_server_config,
            r.tls_client_config == self@.tls_client_config,
            r.paths@ == self@.paths,
    {
        let tls_enabled = self.tls_server_config.is_some();
        ServerConfig {
            worker_threads: self.worker_threads,
            worker_thread_name: self.worker_thread_name,
            port: self.port,
            config_dir: self.config_dir,
            tls_enabled,
            tls_server_config: self.tls_server_config,
            tls_client_config: self.tls_client_config,
            paths: self.paths,
        }
    }
}

} // verus!
