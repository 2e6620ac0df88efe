//! A recursive DNS resolver library: pure inspectors over decoded DNS
//! messages, an iterative resolution engine expressed as a step machine,
//! a TTL-aware LRU cache keyed by question fingerprint, and a worker-pool
//! state model with statistics-driven resizing.

pub mod codec;
pub mod dashjob;
pub mod dns;
pub mod dnserror;
pub mod dnstools;
pub mod lru_ttl_cache;
pub mod resolver;
pub mod threadpool;
pub mod threadpoolerror;
