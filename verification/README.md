# ics20_module

The ICS-20 fungible token transfer module of an IBC host, verified with Verus.

- `src/text.rs`: the characters of a string, `split_once`, and decimal `u64` parsing, each against a spec.
- `src/channel.rs`: channel identifiers (`ChannelId::from_str` of `ibc`), the channel sequence, and the checks a new transfer channel must pass.
- `src/packet.rs`: transfer packet data and acknowledgements, decoded and encoded with `prost` and the messages of `ibc-proto`.
- `src/module.rs`: the module's answers to the channel handshake and the packet callbacks; the transfer handler is a closure the caller supplies.
- `src/laws.rs`: properties that span the functions.
