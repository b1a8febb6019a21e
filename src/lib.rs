//! An on-chain certificate account: its fixed-size record and byte layout, a
//! mutable view that stages changes until they are written back, and the
//! handler that fills a freshly created certificate.

pub mod record;
pub mod view;
pub mod laws;
