# tuic

The verified core of a TUIC proxy client and server, written in Verus.

`src/` is the library; every function in it carries a contract that Verus
proves:

- `options`: the UDP relay mode, congestion control and IP stack
  preference, parsed case-insensitively from their names.
- `address`, `header`: the TUIC wire format. `marshal` appends exactly the
  encoding of a value, `unmarshal` follows the parser stated as a spec
  function, and lemmas prove that the two are inverse and that the parser
  only accepts canonical encodings.
- `net`: IP and socket addresses as octets, and IPv4-mapped IPv6 handling.
- `server_addr`: the relay server's address, its TLS name and the order in
  which resolved addresses are tried.
- `socks5`: the targets of SOCKS5 commands, and step functions from state
  and event to next state and action for CONNECT and UDP ASSOCIATE.
- `udp_session`: the UDP associate socket's address family and binding,
  and the decision on each received datagram (source check, fragments).
- `relay`: which transport UDP packets may use in each relay mode, what the
  server does with each task it reads, when the client's first relay
  connection is retried or ends the process, and when stream limits grow.
- `camouflage`: which headers the HTTP/3 camouflage proxy forwards, the
  request it sends to its backend, and the size limits on bodies.
- `transfer`: the decisions of the bidirectional copy between two streams:
  where each read's bytes go, the counts, and when the copy ends.
- `certs`, `log_file`: certificate chains from file contents, and where the
  log file goes.

`app/` is ordinary Rust around the library: serde forms of the options,
certificate and file loading, name resolution, the SOCKS5 command handlers
and their UDP socket, the relay connection retry loop and the copy loop. It
performs the I/O and hands each outcome to the library's step functions.
`tests/` runs the library on concrete values.
