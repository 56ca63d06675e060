# probe-web-core

The core of a probe-rs client for browsers: it talks to a native `probe-rs serve` over a
WebSocket, or to probe-rs compiled to wasm in a Web Worker.

`src/` is the library, verified with Verus. It does no I/O: its functions say which request
goes out next and what the caller is answered once the reply is in. Contracts are stated over
the requests (`ops`) and the rejections (`rejection`); the proof functions named `law_..` state
what holds across calls, for instance that a socket is closed once, that verifying an image
never writes to flash, and that an RTT client that was cleared is not used again.

One thing is trusted: `symbols::read_symbol_table`, which reads the symbol table of an ELF image
with the `object` crate.

`app/` is the JS API around the library. It parses and converts JS values, sends the requests,
and runs the jobs to their end. The RPC client, the transports, the RTT decoders and the coredump
encoder are linked in through the traits of `app/host.rs`.

`tests/` exercises the library on concrete values.
