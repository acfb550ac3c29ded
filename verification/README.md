# quiver

The verified core of Quiver, a broker between the services of a device: services
register with the core under a name, a public key and a list of permissions, and every
connection opens with a mutual challenge/response handshake before its request is
decided against the registered permissions.

- `src/` is the library, verified with Verus: the permission model
  (`authorization`), the handshake state machines (`handshake`,
  `client_authorization`, `connect`, `server_authorization`, `listener`), handler
  routing and the active interfaces (`handlers`), the calendar interface's decisions
  (`calendar`), the registry's decisions (`registry`), configuration defaults
  (`config`, `core_config`) and the shared types and errors (`shared`, `error`).
  openssl and rand are reached through the trusted items of `crypto`; serde_json
  through one trusted item in `calendar`.
- `app/` is the program around it: sockets (interprocess, tokio), the SQLite registry
  (diesel), the configuration file (confy), logging, and the serde and `failure`
  forms of the library's types.
- `tests/` runs the handshakes end to end with real keys.
