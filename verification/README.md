# mini_pipeline_proxy

A small SOCKS5 proxy framework: a SOCKS5 inbound (no authentication; CONNECT and UDP
ASSOCIATE), a pipeline of middleware, router and outbound manager, and direct, TLS and
Shadowsocks outbounds.

- `src/` is the verified library: the SOCKS5 handshake as a state machine
  (`socks5_session`), the SOCKS5 UDP header codec and relay decisions (`socks5`), the
  table of open UDP sessions by destination (`udp_sessions`), the order
  of a pipeline run (`pipeline`), routing (`router`), the addresses that outbounds dial
  (`outbound`), the TLS root store and the Shadowsocks server configuration (`tls`,
  `ss_outbound`), text forms of addresses (`text`, `ipv6`) and the
  configuration and connection context types.
- `app/` is the program around it: `main`, reading `config.json`, the async network I/O of
  the inbound, pipeline, relays and outbounds, driven by the library's decisions.
- `tests/` exercise the library on concrete values.
