# QUIC Duck 🦆

A minimal QUIC echo service: a server that answers every message with `Echo: `
and the message, and two clients that send lines of text to it. What the
programs decide and compute is a library written in Verus, with contracts that
are proved.

## Layout

- `src/` is the verified library. It performs no network, file or terminal
  access. Where a procedure alternates such work with decisions, the library
  offers one step of it, from an event to the next action.
- `app/` holds the programs: sockets, QUIC connections, certificate files and the
  terminal. They perform the actions and report the events.
- `tests/` runs the library.

Modules of the library:

| module | what it holds |
|---|---|
| `server` | the loops of the server and of a connection, routing, the echo |
| `client` | the client that holds everything in one loop |
| `client_layered` | the client in three layers: application, QUIC, UDP |
| `handshake` | the handshake of a client, with a limit on its attempts |
| `packets` | sending the packets that a connection has ready |
| `outgoing` | bytes on their way to a stream that takes what it has room for |
| `streams` | reassembly of messages from the reads of many streams |
| `header` | what the server reads of the header of a packet |
| `table` | the connections of the server, by connection ID |
| `cert` | self-signed certificates for tests |
| `config`, `connection` | settings, addresses, connection IDs |
| `input`, `text`, `error` | typed lines, UTF-8 and white space, error texts |
| `echo` | the promise of the service: what a client sends comes back to it |

## The programs

```
quicduck server --addr 127.0.0.1:8080 --domain localhost
quicduck client --server 127.0.0.1:8080
quicduck client-layered --server 127.0.0.1:8080
```

A server is named by its IP address or its host name, with the port. A client
sends each line that is typed; `quit` leaves it. The server writes
`cert.pem` and `key.pem` unless both exist. `RUST_LOG` sets the level of the log,
which is `info` by default.

`quiche` is taken without its bundled TLS library. To link the programs, turn on
its feature `boringssl-vendored`, which needs CMake, or link a BoringSSL of your
own.

## QUIC settings

- version 0x00000001 (RFC 9000)
- application protocol `quic-demo`
- 1 MB of data, 10 bidirectional streams
- connections time out after 30 seconds

The certificates are self-signed and the clients do not verify them: the service
is for development and tests only.
