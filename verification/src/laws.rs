//! Properties of the module that span its functions.
use vstd::prelude::*;

use crate::channel::{
    channel_prefix, is_valid_channel_id, max_channel_sequence, spec_channel_sequence,
    spec_validate_transfer_channel_params, transfer_channel_accepted,
};
use crate::error::{Ics20ErrorView, Order};
use crate::module::{CallbackError, handled, ics20_version, recv_acknowledgement, spec_on_chan_open_init, spec_on_chan_open_try, spec_version_check};
use crate::error::Ics20Error;
use crate::packet::AcknowledgementView;
use crate::text::{all_digits, decimal_value, digit_value, is_digit, spec_parse_u64, unsigned_digits};

verus! {

/// The character of the decimal digit `d`.
pub open spec fn digit_char(d: nat) -> char {
    (d + 48) as char
}

/// The decimal text of `n`, without leading zeros.
pub open spec fn decimal_text(n: nat) -> Seq<char>
    decreases n,
{
    if n < 10 {
        seq![digit_char(n)]
    } else {
        decimal_text(n / 10).push(digit_char(n % 10))
    }
}

/// Ten to the power `k`.
pub open spec fn pow10(k: nat) -> nat
    decreases k,
{
    if k == 0 {
        1
    } else {
        10 * pow10((k - 1) as nat)
    }
}

/// The identifier `channel-{n}` of the channel with sequence `n`.
pub open spec fn channel_id_text(n: u64) -> Seq<char> {
    channel_prefix() + decimal_text(n as nat)
}

proof fn lemma_digit_char(d: nat)
    requires
        d < 10,
    ensures
        is_digit(digit_char(d)),
        digit_value(digit_char(d)) == d,
        digit_char(d) != '+',
        d != 0 ==> digit_char(d) != '0',
{
}

/// The decimal text of `n` is a non-empty digit string that spells `n`, begins with a
/// non-zero digit unless `n` is zero, and has at most `k` digits when `n < 10^k`.
proof fn lemma_decimal_text(n: nat, k: nat)
    requires
        1 <= k,
        n < pow10(k),
    ensures
        decimal_text(n).len() >= 1,
        decimal_text(n).len() <= k,
        all_digits(decimal_text(n)),
        decimal_value(decimal_text(n)) == n,
        n != 0 ==> decimal_text(n)[0] != '0',
        decimal_text(n)[0] != '+',
    decreases n,
{
    if n < 10 {
        lemma_digit_char(n);
        let t = decimal_text(n);
        assert(t.drop_last() =~= Seq::<char>::empty());
        assert(decimal_value(t.drop_last()) == 0);
    } else {
        let km1 = (k - 1) as nat;
        assert(pow10(k) == 10 * pow10(km1));
        assert(km1 >= 1) by {
            if km1 == 0 {
                assert(pow10(0) == 1);
            }
        }
        assert(n / 10 < pow10(km1)) by (nonlinear_arith)
            requires
                n < 10 * pow10(km1),
        ;
        lemma_decimal_text(n / 10, km1);
        lemma_digit_char(n % 10);
        let p = decimal_text(n / 10);
        let t = decimal_text(n);
        assert(t == p.push(digit_char(n % 10)));
        assert(t.drop_last() =~= p);
        assert(t.last() == digit_char(n % 10));
        assert(n == (n / 10) * 10 + n % 10);
        assert forall|i: int| 0 <= i < t.len() implies is_digit(#[trigger] t[i]) by {
            if i < p.len() {
                assert(t[i] == p[i]);
            }
        }
        assert(t[0] == p[0]);
        assert(n / 10 != 0);
    }
}

/// Every `u64` is below ten to the twentieth.
proof fn lemma_u64_below_pow10_20(n: u64)
    ensures
        (n as nat) < pow10(20),
{
    reveal_with_fuel(pow10, 21);
    assert(pow10(20) == 100000000000000000000nat);
}

/// The decimal text of a `u64` parses back to it.
pub proof fn law_parse_u64_of_decimal_text(n: u64)
    ensures
        spec_parse_u64(decimal_text(n as nat)) == Some(n),
{
    lemma_u64_below_pow10_20(n);
    lemma_decimal_text(n as nat, 20);
    assert(unsigned_digits(decimal_text(n as nat)) == decimal_text(n as nat));
}

/// The sequence read from the channel identifier `channel-{n}` is `n`: reading the
/// sequence undoes forming the identifier from it.
pub proof fn law_channel_sequence_of_channel_id(n: u64)
    ensures
        is_valid_channel_id(channel_id_text(n)),
        spec_channel_sequence(channel_id_text(n)) == Some(n),
{
    lemma_u64_below_pow10_20(n);
    lemma_decimal_text(n as nat, 20);
    law_parse_u64_of_decimal_text(n);
    let id = channel_id_text(n);
    let digits = decimal_text(n as nat);
    assert(id.take(8) =~= channel_prefix());
    assert(id.skip(8) =~= digits);
    if digits.len() > 1 && digits[0] == '0' {
        assert(n != 0) by {
            if n == 0 {
                assert(digits.len() == 1);
            }
        }
    }
}

/// A new transfer channel passes validation exactly when its identifier carries a
/// sequence below 2^32, it is unordered, and its port is the port the module is bound
/// to; a channel whose sequence is 2^32 or more is never accepted.
pub proof fn law_transfer_channel_validation(
    bound_port: Result<Seq<char>, Ics20ErrorView>,
    order: Order,
    port_id: Seq<char>,
    channel_id: Seq<char>,
)
    ensures
        spec_validate_transfer_channel_params(bound_port, order, port_id, channel_id)
            is Ok <==> transfer_channel_accepted(bound_port, order, port_id, channel_id),
        spec_channel_sequence(channel_id) matches Some(n) && n > max_channel_sequence()
            ==> spec_validate_transfer_channel_params(
            bound_port,
            order,
            port_id,
            channel_id,
        ) is Err,
{
}

/// The two ends of the handshake agree: the channel opening on the counterparty's side
/// succeeds exactly when the opening on this side would with the same channel and
/// version, and then it answers with the transfer version.
pub proof fn law_open_try_agrees_with_open_init(
    bound_port: Result<Seq<char>, Ics20ErrorView>,
    order: Order,
    port_id: Seq<char>,
    channel_id: Seq<char>,
    version: Seq<char>,
)
    ensures
        spec_on_chan_open_try(bound_port, order, port_id, channel_id, version)
            == match spec_on_chan_open_init(
            bound_port,
            order,
            port_id,
            channel_id,
            version,
        ) {
            Ok(()) => Ok(ics20_version()),
            Err(e) => Err(e),
        },
{
}

/// A proposed version is accepted exactly when it is the text `ics20-1`; any other
/// text is refused with `InvalidVersion`, naming the proposal and `ics20-1`.
pub proof fn law_version_is_exactly_ics20_1(version: Seq<char>)
    ensures
        spec_version_check(version) is Ok <==> version == seq!['i', 'c', 's', '2', '0', '-', '1'],
        version != seq!['i', 'c', 's', '2', '0', '-', '1'] ==> spec_version_check(version)
            == Err::<(), Ics20ErrorView>(
            Ics20ErrorView::InvalidVersion {
                got: version,
                expected: seq!['i', 'c', 's', '2', '0', '-', '1'],
            },
        ),
{
    assert(ics20_version() =~= seq!['i', 'c', 's', '2', '0', '-', '1']);
}

/// Opening a channel on either side succeeds exactly when the channel is accepted and
/// the proposed version is the text `ics20-1`; the counterparty's side then answers
/// `ics20-1`.
pub proof fn law_channel_opening_needs_ics20_1(
    bound_port: Result<Seq<char>, Ics20ErrorView>,
    order: Order,
    port_id: Seq<char>,
    channel_id: Seq<char>,
    version: Seq<char>,
)
    ensures
        spec_on_chan_open_init(bound_port, order, port_id, channel_id, version) is Ok <==> (
        transfer_channel_accepted(bound_port, order, port_id, channel_id) && version == seq![
            'i',
            'c',
            's',
            '2',
            '0',
            '-',
            '1',
        ]),
        spec_on_chan_open_try(bound_port, order, port_id, channel_id, version) is Ok <==> (
        transfer_channel_accepted(bound_port, order, port_id, channel_id) && version == seq![
            'i',
            'c',
            's',
            '2',
            '0',
            '-',
            '1',
        ]),
        spec_on_chan_open_try(bound_port, order, port_id, channel_id, version) matches Ok(v)
            ==> v == seq!['i', 'c', 's', '2', '0', '-', '1'],
{
    law_version_is_exactly_ics20_1(version);
    law_transfer_channel_validation(bound_port, order, port_id, channel_id);
}

/// The acknowledgement of a received packet reports success exactly when the transfer
/// handler succeeded: success carries the result `[1]`, and a failure with message `m`
/// is acknowledged as the error `m`, whatever `m` is.
pub proof fn law_recv_acknowledgement_follows_handler(outcome: Result<(), String>)
    ensures
        recv_acknowledgement(outcome) is Result <==> outcome is Ok,
        outcome is Ok ==> recv_acknowledgement(outcome) == AcknowledgementView::Result(
            seq![1u8],
        ),
        outcome matches Err(m) ==> recv_acknowledgement(outcome) == AcknowledgementView::Error(
            m@,
        ),
{
}

/// Once the transfer handler has run, the callback succeeds exactly when the handler
/// did, and a handler error comes back unchanged as `CallbackError::Handler`.
pub proof fn law_handler_outcome_is_passed_on<F>(outcome: Result<(), Ics20Error>)
    ensures
        handled::<F>(outcome) is Ok <==> outcome is Ok,
        outcome matches Err(e) ==> handled::<F>(outcome) == Err::<(), CallbackError<F>>(
            CallbackError::Handler(e),
        ),
{
}

} // verus!
