//! Certificate selection by server name for a TLS listener that serves
//! several independently certified hostnames.
//!
//! The crate holds the store of per-hostname signing identities, the loader
//! that turns certificate and key files into identities, the resolver that a
//! handshake consults, the handshake-wide session policy, and the state
//! machine that supervises one accepted connection.
pub mod identity;
pub mod loader;
pub mod policy;
pub mod store;
pub mod supervisor;

pub use crate::identity::TlsCollection;
pub use crate::loader::get_cert_key;
pub use crate::policy::create_server_config;
pub use crate::store::{init_cert_in_memory, CertificateStore};
