# punktfunk_webos

The decision logic of a game-streaming client for webOS televisions, verified with Verus, and the
ordinary Rust that runs it.

- `src/` holds the logic. It reads no clock and talks to no device: clock readings, the decoder's
  answers and the transport's counts come in as arguments, and what to do next goes out as a value.
  - `discovery`, `text`: from a resolved mDNS record to a host.
  - `loading`, `ndl`, `playing`, `clock`, `hdr`: one decode session, from its load to the silence
    that paces its picture; `stamps`: the order of its audio stamps, whoever feeds it.
  - `pump`, `delivery`, `cadence`: one delivery's way through the video pump, loss, and the figures
    of the heartbeat.
  - `priority`: which threads are boosted.
- `app/` performs those actions on the decoder, the transport, threads and the file system. The
  platform supplies the decoder's functions, the transport and the stages behind traits.
- `tests/` runs the library.

What the library takes on trust is in `discovery`: the getters of `mdns_sd` records.
