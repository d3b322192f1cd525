//! Compatibility layer over the host's secret store. Keychain access is
//! handled by the desktop shell itself, so these entry points survive
//! only for callers of the old interface: the mutating ones refuse, and
//! listing reports nothing (the store cannot enumerate its entries).

pub mod fallback;
pub mod macos;
