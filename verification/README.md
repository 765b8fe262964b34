# quicfs

A network file system over QUIC. The library in `src/` holds the logic,
verified with Verus: the wire schema and its names, the envelope every
message travels in, the length-prefixed framing of messages, the retry
tokens and connection decisions of the QUIC server, the planning of HTTP/3
responses (a request never reaches above the served root), the bookkeeping
of responses that go out in pieces, the decisions of the event loops, and
the directory, file and node decisions of the file server.

`app/` is the program around it: sockets and event loops (mio, quiche),
the libp2p swarm, protobuf encoding (prost) of the library's messages,
the command line (clap) and the file system calls (tokio).

`tests/` exercises the library on concrete values.
