# tailscale-embassy-net

Verified decision logic of an Embassy tailnet node, with the Embassy sockets,
tasks and HTTP listener around it.

> This is an unofficial experimental Tailscale interoperability prototype. It
> is not production-ready and must not be used to protect sensitive traffic.

## Layout

- `src/` is the library. Everything in it is proved with Verus.
  - `net`, `clock`, `tls`, `keys`, `bytes`: endpoints and transport errors, the
    protocol clock, who a TLS session may be used for, peer identities.
  - `tailnet::control`, `tailnet::peers`, `tailnet::state`: the peers of a
    control map, the endpoints that authenticated pings gave them, and live map
    updates.
  - `tailnet::datagram`: the fixed-capacity datagrams that the tasks exchange.
  - `tailnet::direct`, `tailnet::derp`, `tailnet::tunnel`: the three tasks, each
    as a function from its state and an event to the next state and an action.
  - `tailnet::packet_io`, `tailnet::http`, `tailnet::reason`: the IP-native
    stack, the fixed HTTP routes, and the status line of their responses.
- `app/` is ordinary async Rust: it awaits sockets, channels and timers, and
  performs what the library decides. The protocol engine (DERP framing, disco
  and WireGuard cryptography, IPv4 parsing) and the TLS client are reached
  through the traits in `app/protocol.rs`.
- `tests/` runs the library on concrete values.

## What is proved

Every function of the library carries a contract that pins its result down.
Beyond that, public proof functions state what holds of the library as a whole,
among them:

- a direct endpoint is used, in either direction, only after an authenticated
  ping came from it (`direct_delivery_follows_an_authenticated_ping`,
  `direct_offers_follow_an_authenticated_ping`);
- a map refresh keeps endpoints for exactly the unchanged identities
  (`refresh_keeps_endpoints_of_exact_identity`, `refresh_keeps_unchanged_peers`);
- sends of tunnel output to the DERP relay and receives from it alternate
  strictly; at most one pong, in answer to the frame that was read, may come on
  top (`derp_sends_alternate_with_receives`);
- the tunnel always comes back to its queues
  (`tunnel_comes_back_to_its_queues`);
- however a response is cut into writes, its success line gets its reason phrase
  and nothing else changes (`reason_phrase_is_supplied_for_every_chunking`).

One call is believed rather than proved: the monotonic half of the clock reads
`embassy_time::Instant`, and nothing is claimed of the number.

## License

Licensed under either Apache-2.0 or MIT at your option.
