//! Multipart messages. The codec carries their bodies as opaque bytes; these
//! types name what the bodies are made of.

use vstd::prelude::*;

verus! {

/// The kinds of multipart message.
#[derive(Debug, PartialEq, Eq, Clone, Copy)]
pub enum MultipartTypes {
    /// Description of the switch.
    Desc,
    /// Individual flow statistics.
    Flow,
    /// Aggregate flow statistics.
    Aggregate,
    /// Flow table statistics.
    Table,
    /// Port statistics.
    PortStats,
    /// Queue statistics for a port.
    Queue,
    /// Group counter statistics.
    Group,
    /// Group description.
    GroupDesc,
    /// Group features.
    GroupFeatures,
    /// Meter statistics.
    Meter,
    /// Meter configuration.
    MeterConfig,
    /// Meter features.
    MeterFeatures,
    /// Table features.
    TableFeatures,
    /// Port description.
    PortDesc,
    /// Experimenter extension.
    Experimenter,
}

/// A multipart request.
#[derive(Debug, PartialEq, Eq, Clone, Copy)]
pub struct MultipartRequest {
    /// The kind of the request.
    pub ttype: MultipartTypes,
    /// Whether more requests follow.
    pub flags: bool,
    /// The body of the request.
    pub payload: ReqPayload,
}

/// The body of a multipart request.
#[derive(Debug, PartialEq, Eq, Clone, Copy)]
pub enum ReqPayload {
    /// A request for the description of the switch; it has no body.
    Desc,
}

/// A multipart reply.
#[derive(Debug, PartialEq, Eq, Clone, Copy)]
pub struct MultipartReply {
    /// The kind of the reply.
    pub ttype: MultipartTypes,
    /// The flags of the reply.
    pub flags: u16,
    /// The body of the reply.
    pub payload: RepPayload,
}

/// The body of a multipart reply.
#[derive(Debug, PartialEq, Eq, Clone, Copy)]
pub enum RepPayload {
    /// The description of the switch.
    Desc(RepDesc),
}

/// The description of a switch.
#[derive(Debug, PartialEq, Eq, Clone, Copy)]
pub struct RepDesc {}

} // verus!
