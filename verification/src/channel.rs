//! Channel identifiers and the checks a new transfer channel must pass.
//!
//! Identifiers are validated by `ChannelId::from_str` of `ibc` 0.57. That validator
//! accepts only `channel-` followed by the text of a `u64` without a leading zero, at
//! most 64 characters in all. Identifiers that an older, looser validator let through
//! (`channel-01`, `xchannel-1`, `channel-abc`) are refused here as invalid channel
//! identifiers, so the split and parse steps of `parse_channel_sequence`, kept for the
//! identifiers an older validator would pass, never fail under this one
//! (`InvalidSplit` and `InvalidParse` are unreachable).
use vstd::prelude::*;

use crate::error::{Ics20Error, Ics20ErrorView, Order, string_result_view, unit_result_view};
use crate::text::{chars_of, parse_u64, spec_parse_u64, spec_split_once, split_once, is_first_match, lemma_first_match_unique};

verus! {

/// The text `ibc` renders for the error its channel identifier validator reports on
/// the given identifier.
pub uninterp spec fn channel_id_error_text(id: Seq<char>) -> Seq<char>;

/// The text that opens every channel identifier.
pub open spec fn channel_prefix() -> Seq<char> {
    seq!['c', 'h', 'a', 'n', 'n', 'e', 'l', '-']
}

/// The largest channel sequence the module accepts: only 2^32 channels may be created.
pub open spec fn max_channel_sequence() -> u64 {
    u32::MAX as u64
}

/// A valid channel identifier: `channel-` followed by the text of a `u64` (an
/// optional `+` and decimal digits) with no leading zero, at most 64 characters in all.
pub open spec fn is_valid_channel_id(id: Seq<char>) -> bool {
    let number = id.skip(8);
    &&& 8 <= id.len() <= 64
    &&& id.take(8) == channel_prefix()
    &&& spec_parse_u64(number) is Some
    &&& !(number.len() > 1 && number[0] == '0')
}

/// The sequence number a channel identifier carries, where it is valid.
pub open spec fn spec_channel_sequence(id: Seq<char>) -> Option<u64> {
    if is_valid_channel_id(id) {
        spec_parse_u64(id.skip(8))
    } else {
        None
    }
}

/// Calls `ChannelId::from_str` of `ibc` and hands back the identifier's text.
/// Claimed: the call succeeds exactly on the texts that `validate_channel_identifier`
/// accepts (characters, length 8..=64, and the named index `channel-{u64}` without a
/// leading zero), which for these texts is `is_valid_channel_id`; the identifier keeps
/// the text it was parsed from; an error is rendered with its `Display` implementation,
/// and that text (`channel_id_error_text`) depends on the identifier alone.
#[verifier::external_body]
fn channel_id_from_str(s: &str) -> (r: Result<String, String>)
    ensures
        r is Ok <==> is_valid_channel_id(s@),
        r matches Ok(id) ==> id@ == s@,
        r matches Err(text) ==> text@ == channel_id_error_text(s@),
{
    match <ibc::core::host::types::identifiers::ChannelId as core::str::FromStr>::from_str(s) {
        Ok(id) => Ok(String::from(id.as_str())),
        Err(e) => Err(e.to_string()),
    }
}

/// The characters of `channel-`.
fn channel_prefix_chars() -> (v: Vec<char>)
    ensures
        v@ == channel_prefix(),
{
    let v = vec!['c', 'h', 'a', 'n', 'n', 'e', 'l', '-'];
    assert(v@ =~= channel_prefix());
    v
}

/// A valid identifier splits at its leading `channel-`.
proof fn lemma_valid_id_splits(id: Seq<char>)
    requires
        is_valid_channel_id(id),
    ensures
        spec_split_once(id, channel_prefix()) == Some((id.take(0), id.skip(8))),
{
    assert(id.subrange(0, 8) =~= id.take(8));
    assert(is_first_match(id, channel_prefix(), 0));
    let k = choose|k: int| is_first_match(id, channel_prefix(), k);
    lemma_first_match_unique(id, channel_prefix(), 0, k);
}

/// Parses the channel sequence from the channel identifier. An invalid identifier is
/// answered with `InvalidChannelId`, which carries the identifier and the text of the
/// validator's error.
pub fn parse_channel_sequence(channel_identifier: String) -> (r: Result<u64, Ics20Error>)
    ensures
        match spec_channel_sequence(channel_identifier@) {
            Some(n) => r == Ok::<u64, Ics20Error>(n),
            None => r matches Err(Ics20Error::InvalidChannelId { channel_id, reason })
                && channel_id == channel_identifier && reason@ == channel_id_error_text(
                channel_identifier@,
            ),
        },
{
    let channel_id = match channel_id_from_str(channel_identifier.as_str()) {
        Ok(id) => id,
        Err(reason) => {
            return Err(Ics20Error::InvalidChannelId { channel_id: channel_identifier, reason });
        },
    };
    let chars = chars_of(channel_id.as_str());
    let prefix = channel_prefix_chars();
    proof {
        lemma_valid_id_splits(chars@);
    }
    let sequence = match split_once(&chars, &prefix) {
        Some((_, after)) => after,
        None => {
            return Err(Ics20Error::InvalidSplit);
        },
    };
    match parse_u64(&sequence) {
        Some(n) => Ok(n),
        None => Err(Ics20Error::InvalidParse),
    }
}

/// What `validate_transfer_channel_params` returns, over views: the bound port is what
/// the context reported.
pub open spec fn spec_validate_transfer_channel_params(
    bound_port: Result<Seq<char>, Ics20ErrorView>,
    order: Order,
    port_id: Seq<char>,
    channel_id: Seq<char>,
) -> Result<(), Ics20ErrorView> {
    match spec_channel_sequence(channel_id) {
        None => Err(
            Ics20ErrorView::InvalidChannelId {
                channel_id,
                reason: channel_id_error_text(channel_id),
            },
        ),
        Some(sequence) => if sequence > max_channel_sequence() {
            Err(
                Ics20ErrorView::OverflowChannelSequence {
                    sequence,
                    max: max_channel_sequence(),
                },
            )
        } else if order != Order::Unordered {
            Err(Ics20ErrorView::InvalidEqualOrder { expected: Order::Unordered, got: order })
        } else {
            match bound_port {
                Err(e) => Err(e),
                Ok(bound) => if bound == port_id {
                    Ok(())
                } else {
                    Err(Ics20ErrorView::InvalidEqualPortId { bound, given: port_id })
                },
            }
        },
    }
}

/// A new transfer channel is accepted: its identifier is valid with a sequence that
/// fits in 32 bits, it is unordered, and its port is the one the module is bound to.
pub open spec fn transfer_channel_accepted(
    bound_port: Result<Seq<char>, Ics20ErrorView>,
    order: Order,
    port_id: Seq<char>,
    channel_id: Seq<char>,
) -> bool {
    &&& spec_channel_sequence(channel_id) matches Some(sequence)
    &&& sequence <= max_channel_sequence()
    &&& order == Order::Unordered
    &&& bound_port == Ok::<Seq<char>, Ics20ErrorView>(port_id)
}

/// Validates a newly created transfer channel. A transfer channel must be unordered,
/// use the port the module is bound to (`bound_port`, as the context reported it),
/// and carry a sequence below 2^32. The checks come in that order: identifier,
/// sequence, ordering, the context's answer, port.
pub fn validate_transfer_channel_params(
    bound_port: Result<String, Ics20Error>,
    order: Order,
    port_id: String,
    channel_id: String,
) -> (r: Result<(), Ics20Error>)
    ensures
        unit_result_view(r) == spec_validate_transfer_channel_params(
            string_result_view(bound_port),
            order,
            port_id@,
            channel_id@,
        ),
        r is Ok <==> transfer_channel_accepted(
            string_result_view(bound_port),
            order,
            port_id@,
            channel_id@,
        ),
{
    let channel_sequence = match parse_channel_sequence(channel_id) {
        Ok(n) => n,
        Err(e) => {
            return Err(e);
        },
    };
    if channel_sequence > 4294967295u64 {
        return Err(
            Ics20Error::OverflowChannelSequence { sequence: channel_sequence, max: 4294967295u64 },
        );
    }
    if order != Order::Unordered {
        return Err(Ics20Error::InvalidEqualOrder { expected: Order::Unordered, got: order });
    }
    let bound = match bound_port {
        Ok(p) => p,
        Err(e) => {
            return Err(e);
        },
    };
    if bound != port_id {
        return Err(Ics20Error::InvalidEqualPortId { bound, given: port_id });
    }
    Ok(())
}

} // verus!
