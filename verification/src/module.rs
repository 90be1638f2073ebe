//! The transfer module: its answers to the channel handshake and to the packet
//! callbacks of the IBC core.
use vstd::prelude::*;

use crate::channel::{spec_validate_transfer_channel_params, transfer_channel_accepted, validate_transfer_channel_params};
use crate::error::{Ics20Error, Ics20ErrorView, Order, string_result_view, unit_result_view};
use crate::packet::{
    Acknowledgement, AcknowledgementView, FungibleTokenPacketData, decode_acknowledgement,
    decode_packet_data, decodes_to_acknowledgement, protobuf_acknowledgement, protobuf_acknowledgement_bytes,
    protobuf_packet_data,
};

verus! {

/// The version string of the ICS-20 transfer application.
pub open spec fn ics20_version() -> Seq<char> {
    seq!['i', 'c', 's', '2', '0', '-', '1']
}

/// Reads the constant `VERSION` of `ibc`'s transfer application types.
/// Claimed: it is the text `ics20-1`, as `ibc` defines the constant.
#[verifier::external_body]
fn transfer_version() -> (v: String)
    ensures
        v@ == ics20_version(),
{
    String::from(ibc::apps::transfer::types::VERSION)
}

/// The answer to a proposed version: accepted when it is the transfer version.
pub open spec fn spec_version_check(version: Seq<char>) -> Result<(), Ics20ErrorView> {
    if version == ics20_version() {
        Ok(())
    } else {
        Err(Ics20ErrorView::InvalidVersion { got: version, expected: ics20_version() })
    }
}

/// What `on_chan_open_init` returns, over views.
pub open spec fn spec_on_chan_open_init(
    bound_port: Result<Seq<char>, Ics20ErrorView>,
    order: Order,
    port_id: Seq<char>,
    channel_id: Seq<char>,
    version: Seq<char>,
) -> Result<(), Ics20ErrorView> {
    match spec_validate_transfer_channel_params(bound_port, order, port_id, channel_id) {
        Err(e) => Err(e),
        Ok(()) => spec_version_check(version),
    }
}

/// What `on_chan_open_try` returns, over views.
pub open spec fn spec_on_chan_open_try(
    bound_port: Result<Seq<char>, Ics20ErrorView>,
    order: Order,
    port_id: Seq<char>,
    channel_id: Seq<char>,
    counterparty_version: Seq<char>,
) -> Result<Seq<char>, Ics20ErrorView> {
    match spec_validate_transfer_channel_params(bound_port, order, port_id, channel_id) {
        Err(e) => Err(e),
        Ok(()) => match spec_version_check(counterparty_version) {
            Err(e) => Err(e),
            Ok(()) => Ok(ics20_version()),
        },
    }
}

/// The acknowledgement written for a received packet, given what the transfer
/// handler reported: the result `[1]` on success, the handler's message otherwise.
pub open spec fn recv_acknowledgement(outcome: Result<(), String>) -> AcknowledgementView {
    match outcome {
        Ok(()) => AcknowledgementView::Result(seq![1u8]),
        Err(message) => AcknowledgementView::Error(message@),
    }
}

/// The answer of a packet callback that did not complete.
pub enum CallbackError<F> {
    /// The input did not decode. The transfer handler was not run and is handed back.
    Undecodable { error: Ics20Error, handler: F },
    /// The transfer handler ran and reported this error.
    Handler(Ics20Error),
}

impl<F> CallbackError<F> {
    /// The error of the callback, the handler left aside.
    pub fn into_error(self) -> (e: Ics20Error)
        ensures
            e == match self {
                CallbackError::Undecodable { error, .. } => error,
                CallbackError::Handler(error) => error,
            },
    {
        match self {
            CallbackError::Undecodable { error, .. } => error,
            CallbackError::Handler(error) => error,
        }
    }
}

/// What a packet callback answers once the transfer handler has run.
pub open spec fn handled<F>(outcome: Result<(), Ics20Error>) -> Result<(), CallbackError<F>> {
    match outcome {
        Ok(()) => Ok(()),
        Err(e) => Err(CallbackError::Handler(e)),
    }
}

/// The ICS-20 fungible token transfer module of a runtime `T`.
#[derive(Debug, PartialEq, Eq)]
pub struct Ics20IBCModule<T>(pub core::marker::PhantomData<T>);

impl<T> Clone for Ics20IBCModule<T> {
    fn clone(&self) -> (m: Self)
        ensures
            m == *self,
    {
        Ics20IBCModule(core::marker::PhantomData)
    }
}

impl<T> Ics20IBCModule<T> {
    /// Creates the module.
    pub fn new() -> (m: Self)
        ensures
            m == Ics20IBCModule::<T>(core::marker::PhantomData),
    {
        Ics20IBCModule(core::marker::PhantomData)
    }

    /// Checks the version the counterparty proposed.
    fn check_version(version: String) -> (r: Result<(), Ics20Error>)
        ensures
            unit_result_view(r) == spec_version_check(version@),
            r is Ok <==> version@ == seq!['i', 'c', 's', '2', '0', '-', '1'],
            r matches Err(e) ==> (e matches Ics20Error::InvalidVersion { got, expected } && got
                == version && expected@ == seq!['i', 'c', 's', '2', '0', '-', '1']),
    {
        let expected = transfer_version();
        if version != expected {
            return Err(Ics20Error::InvalidVersion { got: version, expected });
        }
        Ok(())
    }

    /// Answers the opening of a channel on this chain (`ChanOpenInit`): the channel must
    /// pass `validate_transfer_channel_params` and propose the transfer version.
    /// `bound_port` is the port the context reports the module bound to.
    pub fn on_chan_open_init(
        &self,
        bound_port: Result<String, Ics20Error>,
        order: Order,
        port_id: String,
        channel_id: String,
        version: String,
    ) -> (r: Result<(), Ics20Error>)
        ensures
            unit_result_view(r) == spec_on_chan_open_init(
                string_result_view(bound_port),
                order,
                port_id@,
                channel_id@,
                version@,
            ),
            r is Ok <==> transfer_channel_accepted(
                string_result_view(bound_port),
                order,
                port_id@,
                channel_id@,
            ) && version@ == ics20_version(),
    {
        match validate_transfer_channel_params(bound_port, order, port_id, channel_id) {
            Ok(()) => {},
            Err(e) => {
                return Err(e);
            },
        }
        Self::check_version(version)
    }

    /// Answers the opening of a channel by the counterparty (`ChanOpenTry`): the same
    /// checks as `on_chan_open_init` on the counterparty's version; on success the
    /// module answers with the transfer version.
    pub fn on_chan_open_try(
        &self,
        bound_port: Result<String, Ics20Error>,
        order: Order,
        port_id: String,
        channel_id: String,
        counterparty_version: String,
    ) -> (r: Result<String, Ics20Error>)
        ensures
            string_result_view(r) == spec_on_chan_open_try(
                string_result_view(bound_port),
                order,
                port_id@,
                channel_id@,
                counterparty_version@,
            ),
    {
        match validate_transfer_channel_params(bound_port, order, port_id, channel_id) {
            Ok(()) => {},
            Err(e) => {
                return Err(e);
            },
        }
        match Self::check_version(counterparty_version) {
            Ok(()) => {},
            Err(e) => {
                return Err(e);
            },
        }
        Ok(transfer_version())
    }

    /// Answers the acknowledgement of a channel opening (`ChanOpenAck`): the
    /// counterparty's version must be the transfer version.
    pub fn on_chan_open_ack(
        &self,
        port_id: String,
        channel_id: String,
        counterparty_version: String,
    ) -> (r: Result<(), Ics20Error>)
        ensures
            unit_result_view(r) == spec_version_check(counterparty_version@),
            r is Ok <==> counterparty_version@ == seq!['i', 'c', 's', '2', '0', '-', '1'],
            r matches Err(e) ==> (e matches Ics20Error::InvalidVersion { got, expected } && got
                == counterparty_version && expected@ == seq!['i', 'c', 's', '2', '0', '-', '1']),
    {
        Self::check_version(counterparty_version)
    }

    /// Answers the confirmation of a channel opening (`ChanOpenConfirm`): always accepted.
    pub fn on_chan_open_confirm(&self, port_id: String, channel_id: String) -> (r: Result<
        (),
        Ics20Error,
    >)
        ensures
            r is Ok,
    {
        Ok(())
    }

    /// Answers a user's request to close a channel (`ChanCloseInit`): transfer channels
    /// may not be closed by users, so the request is always refused.
    pub fn on_chan_close_init(&self, port_id: String, channel_id: String) -> (r: Result<
        (),
        Ics20Error,
    >)
        ensures
            r == Err::<(), Ics20Error>(Ics20Error::InvalidRequest),
    {
        Err(Ics20Error::InvalidRequest)
    }

    /// Answers the confirmation of a channel closing (`ChanCloseConfirm`): always accepted.
    pub fn on_chan_close_confirm(&self, port_id: String, channel_id: String) -> (r: Result<
        (),
        Ics20Error,
    >)
        ensures
            r is Ok,
    {
        Ok(())
    }

    /// Receives a packet (`RecvPacket`). Only packet data that decodes reaches the
    /// transfer handler `handle`, which reports a failure by its message; otherwise the
    /// handler is handed back unrun with `InvalidDecode`. The answer is the encoded
    /// acknowledgement: the result `[1]` when the handler succeeded, the handler's
    /// message when it failed; decoding it gives that acknowledgement back, so it
    /// reports success exactly when the handler succeeded.
    pub fn on_recv_packet<F>(&self, packet_data: &[u8], handle: F) -> (r: Result<
        Vec<u8>,
        CallbackError<F>,
    >)
        where
            F: FnOnce(FungibleTokenPacketData) -> Result<(), String>,
        requires
            forall|d: FungibleTokenPacketData| handle.requires((d,)),
        ensures
            protobuf_packet_data(packet_data@) matches Err(t) ==> (r matches Err(
                CallbackError::Undecodable { error: Ics20Error::InvalidDecode { reason }, handler },
            ) && reason@ == t && handler == handle),
            protobuf_packet_data(packet_data@) matches Ok(d) ==> exists|
                data: FungibleTokenPacketData,
                outcome: Result<(), String>,
            |
                #![trigger handle.ensures((data,), outcome)]
                data@ == d && handle.ensures((data,), outcome) && (r matches Ok(ack) && ack@
                    == protobuf_acknowledgement_bytes(recv_acknowledgement(outcome))
                    && decodes_to_acknowledgement(ack@, recv_acknowledgement(outcome))
                    && (outcome is Ok ==> decodes_to_acknowledgement(
                    ack@,
                    AcknowledgementView::Result(seq![1u8]),
                )) && (outcome matches Err(m) ==> decodes_to_acknowledgement(
                    ack@,
                    AcknowledgementView::Error(m@),
                ))),
    {
        let default_ack_value: Vec<u8> = vec![1u8];
        assert(default_ack_value@ =~= seq![1u8]);
        let mut acknowledgement = Acknowledgement::new_success(default_ack_value);
        let data = match decode_packet_data(packet_data) {
            Ok(d) => d,
            Err(error) => {
                return Err(CallbackError::Undecodable { error, handler: handle });
            },
        };
        let ghost data_view = data;
        assert(acknowledgement@ == recv_acknowledgement(Ok(())));
        if acknowledgement.success() {
            let result = handle(data);
            match result {
                Ok(()) => {},
                Err(err) => {
                    acknowledgement = Acknowledgement::new_error(err);
                },
            }
            assert(acknowledgement@ == recv_acknowledgement(result));
            let ack = acknowledgement.encode_vec();
            assert(handle.ensures((data_view,), result));
            return Ok(ack);
        }
        let ack = acknowledgement.encode_vec();
        Ok(ack)
    }

    /// Processes the acknowledgement of a sent packet (`AcknowledgementPacket`). The
    /// acknowledgement and then the packet data must decode, or the transfer handler
    /// `handle` is handed back unrun with `InvalidDecode`; otherwise the handler runs on
    /// both and its answer is the module's answer.
    pub fn on_acknowledgement_packet<F>(
        &self,
        packet_data: &[u8],
        acknowledgement: &[u8],
        handle: F,
    ) -> (r: Result<(), CallbackError<F>>)
        where
            F: FnOnce(FungibleTokenPacketData, Acknowledgement) -> Result<(), Ics20Error>,
        requires
            forall|d: FungibleTokenPacketData, a: Acknowledgement| handle.requires((d, a)),
        ensures
            protobuf_acknowledgement(acknowledgement@) matches Err(t) ==> (r matches Err(
                CallbackError::Undecodable { error: Ics20Error::InvalidDecode { reason }, handler },
            ) && reason@ == t && handler == handle),
            protobuf_acknowledgement(acknowledgement@) is Ok ==> (protobuf_packet_data(
                packet_data@,
            ) matches Err(t) ==> (r matches Err(
                CallbackError::Undecodable { error: Ics20Error::InvalidDecode { reason }, handler },
            ) && reason@ == t && handler == handle)),
            protobuf_acknowledgement(acknowledgement@) matches Ok(a) ==> (protobuf_packet_data(
                packet_data@,
            ) matches Ok(d) ==> exists|
                data: FungibleTokenPacketData,
                ack: Acknowledgement,
                outcome: Result<(), Ics20Error>,
            |
                #![trigger handle.ensures((data, ack), outcome)]
                data@ == d && ack@ == a && handle.ensures((data, ack), outcome) && (outcome is Ok
                    <==> r is Ok) && (outcome matches Err(e) ==> r == Err::<(), CallbackError<F>>(
                    CallbackError::Handler(e),
                )) && r == handled::<
                    F,
                >(outcome)),
    {
        let ack = match decode_acknowledgement(acknowledgement) {
            Ok(a) => a,
            Err(error) => {
                return Err(CallbackError::Undecodable { error, handler: handle });
            },
        };
        let data = match decode_packet_data(packet_data) {
            Ok(d) => d,
            Err(error) => {
                return Err(CallbackError::Undecodable { error, handler: handle });
            },
        };
        let ghost data_view = data;
        let ghost ack_view = ack;
        let outcome = handle(data, ack);
        assert(handle.ensures((data_view, ack_view), outcome));
        match outcome {
            Ok(()) => Ok(()),
            Err(e) => Err(CallbackError::Handler(e)),
        }
    }

    /// Processes the timeout of a sent packet (`TimeoutPacket`). The packet data must
    /// decode, or the transfer handler `handle` (which refunds the tokens) is handed
    /// back unrun with `InvalidDecode`; otherwise the handler runs and its answer is the
    /// module's answer.
    pub fn on_timeout_packet<F>(&self, packet_data: &[u8], handle: F) -> (r: Result<
        (),
        CallbackError<F>,
    >)
        where
            F: FnOnce(FungibleTokenPacketData) -> Result<(), Ics20Error>,
        requires
            forall|d: FungibleTokenPacketData| handle.requires((d,)),
        ensures
            protobuf_packet_data(packet_data@) matches Err(t) ==> (r matches Err(
                CallbackError::Undecodable { error: Ics20Error::InvalidDecode { reason }, handler },
            ) && reason@ == t && handler == handle),
            protobuf_packet_data(packet_data@) matches Ok(d) ==> exists|
                data: FungibleTokenPacketData,
                outcome: Result<(), Ics20Error>,
            |
                #![trigger handle.ensures((data,), outcome)]
                data@ == d && handle.ensures((data,), outcome) && (outcome is Ok <==> r is Ok) && (
                outcome matches Err(e) ==> r == Err::<(), CallbackError<F>>(
                    CallbackError::Handler(e),
                )) && r == handled::<F>(outcome),
    {
        let data = match decode_packet_data(packet_data) {
            Ok(d) => d,
            Err(error) => {
                return Err(CallbackError::Undecodable { error, handler: handle });
            },
        };
        let ghost data_view = data;
        let outcome = handle(data);
        assert(handle.ensures((data_view,), outcome));
        match outcome {
            Ok(()) => Ok(()),
            Err(e) => Err(CallbackError::Handler(e)),
        }
    }
}

} // verus!
