//! Background-updater library for per-address stake weight overrides.
//!
//! The library holds the verified core of a poller that keeps an in-memory
//! table of per-address weight overrides fresh: the reload debounce logic,
//! the source-selection policy (local file before remote URL), the state
//! transitions of the polling task, and the atomically swappable shared
//! snapshot that readers observe.

pub mod overrides;
pub mod slot;
pub mod source;
pub mod updater;

pub use overrides::IpAddrKey;
