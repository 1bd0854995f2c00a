# rsm

A service manager. A daemon runs services in child processes, restarts them as each service's
restart option says, and answers clients over a local socket.

What the daemon and its clients decide is a library, written in Rust and verified with Verus.
The rest, a thin program around it, does the input and output.

    src/protocol.rs                packets, and frames in a stream of bytes
    src/client.rs                  what a client asks, and what it makes of the answer
    src/status.rs                  the table of services that a client shows
    src/time.rs                    points in time
    src/daemon/mod.rs              services, and how to start one
    src/daemon/service_threads.rs  pools of services, and their numbers
    src/daemon/pool_laws.rs        what holds of the pools
    src/daemon/supervisor.rs       the life of one service
    src/daemon/supervisor_laws.rs  what holds over that life
    src/daemon/session.rs          the conversation with one client
    src/daemon/session_laws.rs     what holds of every conversation
    app/                           command line, socket, processes, clock, files and logs
    tests/                         tests of the library

The library takes on trust what `humantime` and `tabled` return: that their text depends on
nothing but their arguments. Packets are encoded with `postcard`, in `app/`; the library frames the
encodings.
