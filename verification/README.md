# hbb_common

Verified core of a QUIC video-latency reproducer: a client streams VP9 frames
to a server at 25 fps, stamping a frame every couple of seconds; the server
echoes stamped frames back and the client prints the end-to-end latency.

Layout:

- `src/` — the library, verified with Verus:
  - `compress.rs`: zstd packet compression and decompression (buffer sizing,
    the round trip between the two);
  - `clock.rs`: Unix time in milliseconds, elapsed seconds;
  - `video.rs`: the video frame messages and how the client stamps them;
  - `pem.rs`: certificates and the first private key of PEM text;
  - `relay.rs`: the per-event decisions of the server, of the sending task
    and of the client's latency report.
- `app/` — the program around it (`client` or `server`): QUIC endpoints over
  s2n-quic and tokio, file reading, the protobuf wire encoding of messages.
- `tests/` — tests of the library.
