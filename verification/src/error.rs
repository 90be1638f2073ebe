//! The channel ordering and the errors of the transfer module.
use vstd::prelude::*;

verus! {

/// The ordering of the packets on a channel.
#[derive(Clone, Copy, Debug, PartialEq, Eq, Structural)]
pub enum Order {
    /// The ordering is not set (the zero value of the wire enum).
    Unset,
    /// Packets may be delivered in any order.
    Unordered,
    /// Packets are delivered in the order they were sent.
    Ordered,
}

/// The errors of the transfer module.
#[derive(Clone, Debug, PartialEq, Eq)]
pub enum Ics20Error {
    /// The channel identifier is not a valid channel identifier; `reason` is the text
    /// of the identifier validator's error.
    InvalidChannelId { channel_id: String, reason: String },
    /// The channel identifier holds no `channel-` separator.
    InvalidSplit,
    /// The channel sequence is not a decimal `u64`.
    InvalidParse,
    /// The channel sequence exceeds the number of channels the module allows.
    OverflowChannelSequence { sequence: u64, max: u64 },
    /// The channel ordering is not the one the module requires.
    InvalidEqualOrder { expected: Order, got: Order },
    /// The port is not the one the module is bound to.
    InvalidEqualPortId { bound: String, given: String },
    /// The version is not the transfer version.
    InvalidVersion { got: String, expected: String },
    /// The request is refused by the module.
    InvalidRequest,
    /// Bytes did not decode as the expected protobuf message; `reason` is the text of
    /// the decoder's error.
    InvalidDecode { reason: String },
}

/// The mathematical value of an [`Ics20Error`]: its strings as character sequences.
pub enum Ics20ErrorView {
    InvalidChannelId { channel_id: Seq<char>, reason: Seq<char> },
    InvalidSplit,
    InvalidParse,
    OverflowChannelSequence { sequence: u64, max: u64 },
    InvalidEqualOrder { expected: Order, got: Order },
    InvalidEqualPortId { bound: Seq<char>, given: Seq<char> },
    InvalidVersion { got: Seq<char>, expected: Seq<char> },
    InvalidRequest,
    InvalidDecode { reason: Seq<char> },
}

impl View for Ics20Error {
    type V = Ics20ErrorView;

    open spec fn view(&self) -> Ics20ErrorView {
        match self {
            Ics20Error::InvalidChannelId { channel_id, reason } => Ics20ErrorView::InvalidChannelId {
                channel_id: channel_id@,
                reason: reason@,
            },
            Ics20Error::InvalidSplit => Ics20ErrorView::InvalidSplit,
            Ics20Error::InvalidParse => Ics20ErrorView::InvalidParse,
            Ics20Error::OverflowChannelSequence { sequence, max } => {
                Ics20ErrorView::OverflowChannelSequence { sequence: *sequence, max: *max }
            },
            Ics20Error::InvalidEqualOrder { expected, got } => Ics20ErrorView::InvalidEqualOrder {
                expected: *expected,
                got: *got,
            },
            Ics20Error::InvalidEqualPortId { bound, given } => Ics20ErrorView::InvalidEqualPortId {
                bound: bound@,
                given: given@,
            },
            Ics20Error::InvalidVersion { got, expected } => Ics20ErrorView::InvalidVersion {
                got: got@,
                expected: expected@,
            },
            Ics20Error::InvalidRequest => Ics20ErrorView::InvalidRequest,
            Ics20Error::InvalidDecode { reason } => Ics20ErrorView::InvalidDecode {
                reason: reason@,
            },
        }
    }
}

/// The view of a result that carries a string on success.
pub open spec fn string_result_view(r: Result<String, Ics20Error>) -> Result<Seq<char>, Ics20ErrorView> {
    match r {
        Ok(s) => Ok(s@),
        Err(e) => Err(e@),
    }
}

/// The view of a result that carries nothing on success.
pub open spec fn unit_result_view(r: Result<(), Ics20Error>) -> Result<(), Ics20ErrorView> {
    match r {
        Ok(()) => Ok(()),
        Err(e) => Err(e@),
    }
}

} // verus!
