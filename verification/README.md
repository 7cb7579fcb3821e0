# wrist_hello

The daemon side of wrist authentication: a Linux PAM module asks the daemon,
over a UNIX socket, to authenticate a user; the daemon sends a random
challenge to a paired watch over Bluetooth LE, and the watch answers with an
ECDSA P-256 signature over the challenge (the user approved) or with a deny
response (`0x00` followed by the challenge). A successful authentication is
held for a configurable number of seconds.

- `src/` is the library, verified with Verus: the challenge, the session,
  the authentication cache, the classification of the watch's responses, the
  decisions of the request processor and of the socket workers, the
  advertisement setup, and the configuration.
- `tests/` exercises the library.
- `app/` is the daemon around it: the BlueZ GATT service, the socket server,
  the processor task, and the commands that advertise through `btmgmt`.
