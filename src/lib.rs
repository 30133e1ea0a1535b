//! Safe registration of closures with a callback-driven event loop and with
//! remote object proxies, with deterministic, ordered teardown.
pub mod info;
pub mod ledger;
pub mod loop_;
pub mod mask;
pub mod port;
pub mod spa;
