use ics20_module::error::Ics20Error;
use ics20_module::module::{CallbackError, Ics20IBCModule};
use ics20_module::packet::{decode_acknowledgement, decode_packet_data, Acknowledgement, FungibleTokenPacketData};
use ibc_proto::ibc::applications::transfer::v2::FungibleTokenPacketData as RawPacketData;
use prost::Message;

fn packet_bytes() -> Vec<u8> {
    RawPacketData {
        denom: "uatom".to_string(),
        amount: "100".to_string(),
        sender: "alice".to_string(),
        receiver: "bob".to_string(),
        memo: String::new(),
    }
    .encode_to_vec()
}

fn expected_data() -> FungibleTokenPacketData {
    FungibleTokenPacketData {
        denom: "uatom".to_string(),
        amount: "100".to_string(),
        sender: "alice".to_string(),
        receiver: "bob".to_string(),
        memo: String::new(),
    }
}

fn module() -> Ics20IBCModule<()> {
    Ics20IBCModule::new()
}

// bytes that are no protobuf message: a field with wire type 7
const GARBAGE: [u8; 2] = [0x0f, 0x01];

#[test]
fn decodes_packet_data() {
    assert_eq!(decode_packet_data(&packet_bytes()), Ok(expected_data()));
    assert!(matches!(decode_packet_data(&GARBAGE), Err(Ics20Error::InvalidDecode { reason }) if !reason.is_empty()));
}

#[test]
fn encodes_success_acknowledgement() {
    let ack = Acknowledgement::new_success(vec![1]);
    assert!(ack.success());
    assert_eq!(ack.encode_vec(), vec![0xaa, 0x01, 0x01, 0x01]);
}

#[test]
fn encodes_error_acknowledgement() {
    let ack = Acknowledgement::new_error("no".to_string());
    assert!(!ack.success());
    assert_eq!(ack.encode_vec(), vec![0xb2, 0x01, 0x02, b'n', b'o']);
    assert_eq!(Acknowledgement::Empty.encode_vec(), Vec::<u8>::new());
}

#[test]
fn acknowledgement_decodes_what_was_encoded() {
    for ack in [
        Acknowledgement::new_success(vec![1]),
        Acknowledgement::new_error("transfer failed".to_string()),
        Acknowledgement::new_success(vec![]),
        Acknowledgement::new_error(String::new()),
        Acknowledgement::Empty,
    ] {
        assert_eq!(decode_acknowledgement(&ack.encode_vec()), Ok(ack));
    }
    assert!(matches!(decode_acknowledgement(&GARBAGE), Err(Ics20Error::InvalidDecode { .. })));
}

#[test]
fn recv_packet_acknowledges_success() {
    let mut seen = None;
    let ack = module().on_recv_packet(&packet_bytes(), |d| {
        seen = Some(d);
        Ok(())
    });
    let ack = ack.ok().unwrap();
    assert_eq!(seen, Some(expected_data()));
    let expected = ibc_proto::ibc::core::channel::v1::Acknowledgement { response: Some(ibc_proto::ibc::core::channel::v1::acknowledgement::Response::Result(vec![1])) }.encode_to_vec();
    assert_eq!(ack, expected);
    assert!(decode_acknowledgement(&ack).unwrap().success());
}

#[test]
fn recv_packet_acknowledges_handler_error() {
    let ack = module().on_recv_packet(&packet_bytes(), |_| Err("insufficient funds".to_string()));
    let expected = ibc_proto::ibc::core::channel::v1::Acknowledgement {
        response: Some(ibc_proto::ibc::core::channel::v1::acknowledgement::Response::Error("insufficient funds".to_string())),
    }
    .encode_to_vec();
    let ack = ack.ok().unwrap();
    assert_eq!(ack, expected);
    assert_eq!(
        decode_acknowledgement(&ack),
        Ok(Acknowledgement::Error("insufficient funds".to_string()))
    );
}

#[test]
fn recv_packet_rejects_undecodable_data() {
    let calls = std::cell::Cell::new(0);
    let r = module().on_recv_packet(&GARBAGE, |_| {
        calls.set(calls.get() + 1);
        Ok(())
    });
    assert_eq!(calls.get(), 0);
    match r {
        Err(CallbackError::Undecodable { error: Ics20Error::InvalidDecode { .. }, handler }) => {
            assert_eq!(handler(expected_data()), Ok(()));
        }
        _ => panic!("expected an undecodable packet"),
    }
    assert_eq!(calls.get(), 1);
}

#[test]
fn acknowledgement_packet_runs_handler() {
    let ack_bytes = Acknowledgement::new_success(vec![1]).encode_vec();
    let mut seen = None;
    let r = module().on_acknowledgement_packet(&packet_bytes(), &ack_bytes, |d, a| {
        seen = Some((d, a));
        Ok(())
    });
    assert!(r.is_ok());
    assert_eq!(seen, Some((expected_data(), Acknowledgement::Result(vec![1]))));
    let r = module().on_acknowledgement_packet(&packet_bytes(), &ack_bytes, |_, _| {
        Err(Ics20Error::InvalidRequest)
    });
    assert!(matches!(r, Err(CallbackError::Handler(Ics20Error::InvalidRequest))));
    let r = module().on_acknowledgement_packet(&packet_bytes(), &ack_bytes, |_, _| {
        Err(Ics20Error::InvalidRequest)
    });
    assert_eq!(r.map_err(|e| e.into_error()), Err(Ics20Error::InvalidRequest));
}

#[test]
fn acknowledgement_packet_rejects_undecodable_input() {
    let ack_bytes = Acknowledgement::new_success(vec![1]).encode_vec();
    let mut calls = 0;
    let r = module().on_acknowledgement_packet(&packet_bytes(), &GARBAGE, |_, _| {
        calls += 1;
        Ok(())
    });
    assert!(matches!(
        r,
        Err(CallbackError::Undecodable { error: Ics20Error::InvalidDecode { .. }, .. })
    ));
    let r = module().on_acknowledgement_packet(&GARBAGE, &ack_bytes, |_, _| {
        calls += 1;
        Ok(())
    });
    assert!(matches!(
        r,
        Err(CallbackError::Undecodable { error: Ics20Error::InvalidDecode { .. }, .. })
    ));
    assert_eq!(calls, 0);
}

#[test]
fn timeout_packet_runs_handler() {
    let mut seen = None;
    let r = module().on_timeout_packet(&packet_bytes(), |d| {
        seen = Some(d);
        Ok(())
    });
    assert!(r.is_ok());
    assert_eq!(seen, Some(expected_data()));
    let r = module().on_timeout_packet(&packet_bytes(), |_| Err(Ics20Error::InvalidRequest));
    assert!(matches!(r, Err(CallbackError::Handler(Ics20Error::InvalidRequest))));
    let mut called = false;
    let r = module().on_timeout_packet(&GARBAGE, |_| {
        called = true;
        Ok(())
    });
    assert!(matches!(
        r,
        Err(CallbackError::Undecodable { error: Ics20Error::InvalidDecode { .. }, .. })
    ));
    drop(r);
    assert!(!called);
}

#[test]
fn decode_errors_carry_decoder_text() {
    let packet_text = RawPacketData::decode(&GARBAGE[..]).unwrap_err().to_string();
    let ack_text = ibc_proto::ibc::core::channel::v1::Acknowledgement::decode(&GARBAGE[..])
        .unwrap_err()
        .to_string();
    assert_eq!(
        decode_packet_data(&GARBAGE),
        Err(Ics20Error::InvalidDecode { reason: packet_text.clone() })
    );
    assert_eq!(
        decode_acknowledgement(&GARBAGE),
        Err(Ics20Error::InvalidDecode { reason: ack_text.clone() })
    );
    let r = module().on_acknowledgement_packet(&GARBAGE, &GARBAGE, |_, _| Ok(()));
    assert_eq!(r.map_err(|e| e.into_error()), Err(Ics20Error::InvalidDecode { reason: ack_text }));
    let r = module().on_timeout_packet(&GARBAGE, |_| Ok(()));
    assert_eq!(r.map_err(|e| e.into_error()), Err(Ics20Error::InvalidDecode { reason: packet_text }));
}
