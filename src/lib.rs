//! An embeddable HTTP server core: a per-request exchange with lifecycle
//! flags, typed attachments and listeners, first-match routing of requests to
//! handler chains, the decisions that drive those chains, and the header and
//! URI rewriting of a reverse proxy.

pub mod status;
pub mod text;
pub mod uri;
pub mod attachment;
pub mod cert_manager;
pub mod exchange;
pub mod headers;
pub mod proxy;
pub mod registry;
pub mod routing;
pub mod server;
