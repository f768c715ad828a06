# rumqttd_tls

The TLS front door of an MQTT broker, verified with Verus: which acceptor a configuration gives,
and which tenant an accepted client belongs to.

- `src/config.rs`: what an operator configures.
- `src/error.rs`: what can go wrong, and how contracts see it.
- `src/pem.rs`: certificates and private keys in PEM text.
- `src/roots.rs`: the trust anchors for client certificates.
- `src/setup.rs`, `src/server.rs`: rustls servers.
- `src/archive.rs`, `src/native.rs`: acceptors of the platform's TLS library.
- `src/tenant.rs`: the tenant that a client certificate names.
- `src/tls.rs`: the acceptor itself.
- `src/laws.rs`: what holds of the acceptors as a whole.
- `src/outside.rs`: the types of other crates that pass through unopened.
- `app/`: opens files, runs handshakes, and asks the library what to make of them.
