//! OpenFlow 1.3 controller core: the wire codec for OpenFlow messages, the
//! per-switch session logic and the dispatcher's decisions, with contracts
//! proved by Verus.

pub mod ctl;
pub mod ds;
pub mod err;
pub mod wire;
