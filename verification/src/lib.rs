//! Time-division broadcast datalink for a small fleet: a 64-bit frame codec,
//! the message catalogue, the slot scheduler, the join protocol and the shared
//! track store.

pub mod datalink;
