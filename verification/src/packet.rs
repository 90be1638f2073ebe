//! The transfer packet data and the acknowledgements, and their protobuf encodings.
use vstd::prelude::*;

use crate::error::Ics20Error;

verus! {

/// The data of a fungible token transfer packet.
#[derive(Clone, Debug, PartialEq, Eq)]
pub struct FungibleTokenPacketData {
    /// The token denomination to be transferred.
    pub denom: String,
    /// The token amount to be transferred.
    pub amount: String,
    /// The sender address.
    pub sender: String,
    /// The recipient address on the destination chain.
    pub receiver: String,
    /// An optional memo.
    pub memo: String,
}

/// The mathematical value of [`FungibleTokenPacketData`].
pub struct PacketDataView {
    pub denom: Seq<char>,
    pub amount: Seq<char>,
    pub sender: Seq<char>,
    pub receiver: Seq<char>,
    pub memo: Seq<char>,
}

impl View for FungibleTokenPacketData {
    type V = PacketDataView;

    open spec fn view(&self) -> PacketDataView {
        PacketDataView {
            denom: self.denom@,
            amount: self.amount@,
            sender: self.sender@,
            receiver: self.receiver@,
            memo: self.memo@,
        }
    }
}

/// The acknowledgement of a packet: a result, an error, or (as the wire allows) neither.
#[derive(Clone, Debug, PartialEq, Eq)]
pub enum Acknowledgement {
    /// The packet was processed; the bytes are the application's result.
    Result(Vec<u8>),
    /// The packet was refused; the text says why.
    Error(String),
    /// The message carried no response.
    Empty,
}

/// The mathematical value of an [`Acknowledgement`].
pub enum AcknowledgementView {
    Result(Seq<u8>),
    Error(Seq<char>),
    Empty,
}

impl View for Acknowledgement {
    type V = AcknowledgementView;

    open spec fn view(&self) -> AcknowledgementView {
        match self {
            Acknowledgement::Result(r) => AcknowledgementView::Result(r@),
            Acknowledgement::Error(e) => AcknowledgementView::Error(e@),
            Acknowledgement::Empty => AcknowledgementView::Empty,
        }
    }
}

impl Acknowledgement {
    /// A successful acknowledgement carrying `result`.
    pub fn new_success(result: Vec<u8>) -> (a: Acknowledgement)
        ensures
            a@ == AcknowledgementView::Result(result@),
    {
        Acknowledgement::Result(result)
    }

    /// An error acknowledgement carrying `message`.
    pub fn new_error(message: String) -> (a: Acknowledgement)
        ensures
            a@ == AcknowledgementView::Error(message@),
    {
        Acknowledgement::Error(message)
    }

    /// Whether the acknowledgement reports success.
    pub fn success(&self) -> (b: bool)
        ensures
            b == (self@ is Result),
    {
        match self {
            Acknowledgement::Result(_) => true,
            _ => false,
        }
    }
}

/// What decoding the protobuf message `ibc.applications.transfer.v2.FungibleTokenPacketData`
/// from the given bytes gives: the message, or the text of the decoding error where
/// the bytes are no such message.
pub uninterp spec fn protobuf_packet_data(bytes: Seq<u8>) -> Result<PacketDataView, Seq<char>>;

/// What decoding the protobuf message `ibc.core.channel.v1.Acknowledgement` from the
/// given bytes gives: the message, or the text of the decoding error where the bytes
/// are no such message.
pub uninterp spec fn protobuf_acknowledgement(bytes: Seq<u8>) -> Result<AcknowledgementView, Seq<char>>;

/// The bytes decode as the protobuf message `ibc.core.channel.v1.Acknowledgement`,
/// giving `ack`.
pub open spec fn decodes_to_acknowledgement(bytes: Seq<u8>, ack: AcknowledgementView) -> bool {
    protobuf_acknowledgement(bytes) == Ok::<AcknowledgementView, Seq<char>>(ack)
}

/// The protobuf encoding of the message `ibc.core.channel.v1.Acknowledgement`.
pub uninterp spec fn protobuf_acknowledgement_bytes(ack: AcknowledgementView) -> Seq<u8>;

/// Calls `prost::Message::decode` for the `FungibleTokenPacketData` message of
/// `ibc-proto`, moves its five fields into the library's type, and renders a decoding
/// error with its `Display` implementation.
/// Claimed: the outcome is `protobuf_packet_data` of the bytes, the message or the
/// error's text; protobuf decoding and the error's text depend on the bytes alone.
#[verifier::external_body]
fn decode_packet_data_message(bytes: &[u8]) -> (r: Result<FungibleTokenPacketData, String>)
    ensures
        match protobuf_packet_data(bytes@) {
            Ok(d) => r matches Ok(data) && data@ == d,
            Err(t) => r matches Err(text) && text@ == t,
        },
{
    match <ibc_proto::ibc::applications::transfer::v2::FungibleTokenPacketData as prost::Message>::decode(bytes) {
        Ok(raw) => Ok(FungibleTokenPacketData {
            denom: raw.denom,
            amount: raw.amount,
            sender: raw.sender,
            receiver: raw.receiver,
            memo: raw.memo,
        }),
        Err(e) => Err(e.to_string()),
    }
}

/// Calls `prost::Message::decode` for the `Acknowledgement` message of `ibc-proto`,
/// moves its response into the library's type, and renders a decoding error with its
/// `Display` implementation.
/// Claimed: the outcome is `protobuf_acknowledgement` of the bytes, the message or the
/// error's text; both depend on the bytes alone.
#[verifier::external_body]
fn decode_acknowledgement_message(bytes: &[u8]) -> (r: Result<Acknowledgement, String>)
    ensures
        match protobuf_acknowledgement(bytes@) {
            Ok(a) => r matches Ok(ack) && ack@ == a,
            Err(t) => r matches Err(text) && text@ == t,
        },
{
    match <ibc_proto::ibc::core::channel::v1::Acknowledgement as prost::Message>::decode(bytes) {
        Ok(raw) => match raw.response {
            Some(ibc_proto::ibc::core::channel::v1::acknowledgement::Response::Result(r)) => Ok(
                Acknowledgement::Result(r),
            ),
            Some(ibc_proto::ibc::core::channel::v1::acknowledgement::Response::Error(e)) => Ok(
                Acknowledgement::Error(e),
            ),
            None => Ok(Acknowledgement::Empty),
        },
        Err(e) => Err(e.to_string()),
    }
}

/// Calls `prost::Message::encode_to_vec` on the `Acknowledgement` message of
/// `ibc-proto` built from `ack`.
/// Claimed: the bytes are `protobuf_acknowledgement_bytes` of the acknowledgement;
/// encoding never fails and depends on the message alone; and decoding the bytes gives
/// the acknowledgement back (`encode_to_vec` writes the one field that is set, tag 21
/// for a result, 22 for an error, none for an empty response, and `decode` reads that
/// field back into the same variant).
#[verifier::external_body]
fn encode_acknowledgement_message(ack: &Acknowledgement) -> (r: Vec<u8>)
    ensures
        r@ == protobuf_acknowledgement_bytes(ack@),
        decodes_to_acknowledgement(r@, ack@),
{
    let response = match ack {
        Acknowledgement::Result(r) => Some(
            ibc_proto::ibc::core::channel::v1::acknowledgement::Response::Result(r.clone()),
        ),
        Acknowledgement::Error(e) => Some(
            ibc_proto::ibc::core::channel::v1::acknowledgement::Response::Error(e.clone()),
        ),
        Acknowledgement::Empty => None,
    };
    prost::Message::encode_to_vec(&ibc_proto::ibc::core::channel::v1::Acknowledgement { response })
}

/// Decodes the data of a transfer packet. Undecodable bytes are answered with
/// `InvalidDecode`, which carries the text of the decoder's error.
pub fn decode_packet_data(bytes: &[u8]) -> (r: Result<FungibleTokenPacketData, Ics20Error>)
    ensures
        match protobuf_packet_data(bytes@) {
            Ok(d) => r matches Ok(data) && data@ == d,
            Err(t) => r matches Err(Ics20Error::InvalidDecode { reason }) && reason@ == t,
        },
{
    match decode_packet_data_message(bytes) {
        Ok(data) => Ok(data),
        Err(reason) => Err(Ics20Error::InvalidDecode { reason }),
    }
}

/// Decodes an acknowledgement. Undecodable bytes are answered with `InvalidDecode`,
/// which carries the text of the decoder's error.
pub fn decode_acknowledgement(bytes: &[u8]) -> (r: Result<Acknowledgement, Ics20Error>)
    ensures
        match protobuf_acknowledgement(bytes@) {
            Ok(a) => r matches Ok(ack) && ack@ == a,
            Err(t) => r matches Err(Ics20Error::InvalidDecode { reason }) && reason@ == t,
        },
{
    match decode_acknowledgement_message(bytes) {
        Ok(ack) => Ok(ack),
        Err(reason) => Err(Ics20Error::InvalidDecode { reason }),
    }
}

impl Acknowledgement {
    /// The protobuf encoding of the acknowledgement; it decodes back to the
    /// acknowledgement.
    pub fn encode_vec(&self) -> (r: Vec<u8>)
        ensures
            r@ == protobuf_acknowledgement_bytes(self@),
            decodes_to_acknowledgement(r@, self@),
    {
        encode_acknowledgement_message(self)
    }
}

} // verus!
