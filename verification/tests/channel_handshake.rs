use ics20_module::channel::{parse_channel_sequence, validate_transfer_channel_params};
use ics20_module::error::{Ics20Error, Order};
use ics20_module::module::Ics20IBCModule;

fn s(x: &str) -> String {
    x.to_string()
}

fn assert_invalid_channel_id<T: std::fmt::Debug>(r: Result<T, Ics20Error>, id: &str) {
    match r {
        Err(Ics20Error::InvalidChannelId { channel_id, reason }) => {
            assert_eq!(channel_id, id);
            assert!(!reason.is_empty(), "{}", id);
        }
        other => panic!("{}: {:?}", id, other),
    }
}

fn module() -> Ics20IBCModule<()> {
    Ics20IBCModule::new()
}

#[test]
fn parses_sequence_of_channel_id() {
    assert_eq!(parse_channel_sequence(s("channel-27")), Ok(27));
    assert_eq!(parse_channel_sequence(s("channel-0")), Ok(0));
    assert_eq!(parse_channel_sequence(s("channel-+5")), Ok(5));
    assert_eq!(
        parse_channel_sequence(s("channel-18446744073709551615")),
        Ok(u64::MAX)
    );
}

#[test]
fn rejects_invalid_channel_ids() {
    for id in [
        "",
        "channel-",
        "channel-abc",
        "channel-01",
        "channel--1",
        "chan-1",
        "xchannel-1",
        "channel-18446744073709551616",
        "channel-1/2",
    ] {
        assert_invalid_channel_id(parse_channel_sequence(s(id)), id);
    }
}

#[test]
fn rejects_channel_id_over_64_characters() {
    let long = format!("channel-+{}", "0".repeat(60));
    assert_eq!(long.len(), 69);
    assert_invalid_channel_id(parse_channel_sequence(long.clone()), &long);
    let fits = format!("channel-+{}7", "0".repeat(54));
    assert_eq!(fits.len(), 64);
    assert_eq!(parse_channel_sequence(fits), Ok(7));
}

#[test]
fn sequence_of_formed_channel_id_round_trips() {
    for n in [0u64, 1, 9, 10, 27, 4294967295, 4294967296, 1234567890123, u64::MAX] {
        assert_eq!(parse_channel_sequence(format!("channel-{}", n)), Ok(n));
    }
}

#[test]
fn validation_accepts_unordered_channel_on_bound_port() {
    assert_eq!(
        validate_transfer_channel_params(Ok(s("transfer")), Order::Unordered, s("transfer"), s("channel-3")),
        Ok(())
    );
    assert_eq!(
        validate_transfer_channel_params(
            Ok(s("transfer")),
            Order::Unordered,
            s("transfer"),
            s("channel-4294967295")
        ),
        Ok(())
    );
}

#[test]
fn validation_errors_in_order() {
    assert_invalid_channel_id(
        validate_transfer_channel_params(Ok(s("transfer")), Order::Ordered, s("other"), s("bad")),
        "bad",
    );
    assert_eq!(
        validate_transfer_channel_params(
            Ok(s("transfer")),
            Order::Ordered,
            s("other"),
            s("channel-4294967296")
        ),
        Err(Ics20Error::OverflowChannelSequence { sequence: 4294967296, max: 4294967295 })
    );
    assert_eq!(
        validate_transfer_channel_params(Ok(s("transfer")), Order::Ordered, s("other"), s("channel-1")),
        Err(Ics20Error::InvalidEqualOrder { expected: Order::Unordered, got: Order::Ordered })
    );
    assert_eq!(
        validate_transfer_channel_params(Ok(s("transfer")), Order::Unset, s("transfer"), s("channel-1")),
        Err(Ics20Error::InvalidEqualOrder { expected: Order::Unordered, got: Order::Unset })
    );
    assert_eq!(
        validate_transfer_channel_params(
            Err(Ics20Error::InvalidRequest),
            Order::Unordered,
            s("transfer"),
            s("channel-1")
        ),
        Err(Ics20Error::InvalidRequest)
    );
    assert_eq!(
        validate_transfer_channel_params(Ok(s("transfer")), Order::Unordered, s("other"), s("channel-1")),
        Err(Ics20Error::InvalidEqualPortId { bound: s("transfer"), given: s("other") })
    );
}

#[test]
fn open_init_checks_channel_and_version() {
    let m = module();
    assert_eq!(
        m.on_chan_open_init(Ok(s("transfer")), Order::Unordered, s("transfer"), s("channel-0"), s("ics20-1")),
        Ok(())
    );
    assert_eq!(
        m.on_chan_open_init(Ok(s("transfer")), Order::Unordered, s("transfer"), s("channel-0"), s("ics20-2")),
        Err(Ics20Error::InvalidVersion { got: s("ics20-2"), expected: s("ics20-1") })
    );
    assert_eq!(
        m.on_chan_open_init(Ok(s("transfer")), Order::Ordered, s("transfer"), s("channel-0"), s("ics20-2")),
        Err(Ics20Error::InvalidEqualOrder { expected: Order::Unordered, got: Order::Ordered })
    );
}

#[test]
fn open_try_answers_with_transfer_version() {
    let m = module();
    assert_eq!(
        m.on_chan_open_try(Ok(s("transfer")), Order::Unordered, s("transfer"), s("channel-9"), s("ics20-1")),
        Ok(s("ics20-1"))
    );
    assert_eq!(
        m.on_chan_open_try(Ok(s("transfer")), Order::Unordered, s("transfer"), s("channel-9"), s("")),
        Err(Ics20Error::InvalidVersion { got: s(""), expected: s("ics20-1") })
    );
    assert_eq!(
        m.on_chan_open_try(Ok(s("transfer")), Order::Unordered, s("port"), s("channel-9"), s("ics20-1")),
        Err(Ics20Error::InvalidEqualPortId { bound: s("transfer"), given: s("port") })
    );
}

#[test]
fn open_try_agrees_with_open_init() {
    let m = module();
    let cases = [
        (Order::Unordered, "transfer", "channel-1", "ics20-1"),
        (Order::Unordered, "transfer", "channel-1", "ics20-9"),
        (Order::Ordered, "transfer", "channel-1", "ics20-1"),
        (Order::Unordered, "other", "channel-1", "ics20-1"),
        (Order::Unordered, "transfer", "channel-99999999999", "ics20-1"),
        (Order::Unordered, "transfer", "connection-1", "ics20-1"),
    ];
    for (order, port, chan, version) in cases {
        let init = m.on_chan_open_init(Ok(s("transfer")), order, s(port), s(chan), s(version));
        let try_ = m.on_chan_open_try(Ok(s("transfer")), order, s(port), s(chan), s(version));
        assert_eq!(try_, init.map(|()| s("ics20-1")));
    }
}

#[test]
fn open_ack_checks_counterparty_version() {
    let m = module();
    assert_eq!(m.on_chan_open_ack(s("transfer"), s("channel-0"), s("ics20-1")), Ok(()));
    assert_eq!(
        m.on_chan_open_ack(s("transfer"), s("channel-0"), s("ics721-1")),
        Err(Ics20Error::InvalidVersion { got: s("ics721-1"), expected: s("ics20-1") })
    );
}

#[test]
fn open_confirm_and_close_confirm_accept() {
    let m = module();
    assert_eq!(m.on_chan_open_confirm(s("transfer"), s("channel-0")), Ok(()));
    assert_eq!(m.on_chan_close_confirm(s("transfer"), s("channel-0")), Ok(()));
}

#[test]
fn close_init_is_refused() {
    let m = module();
    assert_eq!(
        m.on_chan_close_init(s("transfer"), s("channel-0")),
        Err(Ics20Error::InvalidRequest)
    );
}

#[test]
fn new_modules_are_equal() {
    let a: Ics20IBCModule<u32> = Ics20IBCModule::new();
    assert_eq!(a.clone(), Ics20IBCModule::new());
    assert_eq!(a, Ics20IBCModule(core::marker::PhantomData));
}

#[test]
fn invalid_channel_id_carries_validator_text() {
    for id in ["bad", "channel-01", "channel-x", ""] {
        let expected = <ibc::core::host::types::identifiers::ChannelId as core::str::FromStr>::from_str(id)
            .unwrap_err()
            .to_string();
        assert_eq!(
            parse_channel_sequence(s(id)),
            Err(Ics20Error::InvalidChannelId { channel_id: s(id), reason: expected.clone() })
        );
        assert_eq!(
            module().on_chan_open_init(Ok(s("transfer")), Order::Unordered, s("transfer"), s(id), s("x")),
            Err(Ics20Error::InvalidChannelId { channel_id: s(id), reason: expected })
        );
    }
}
