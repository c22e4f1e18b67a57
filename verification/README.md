# penrose X connection

The part of a window manager that talks to an X server, with the decisions verified.

- `src/xconnection.rs`: the events the window manager handles, how raw X events become
  them, the `XConn` trait and the in-memory `MockXConn`.
- `src/atoms.rs`: the atoms interned on connecting and the table of their IDs.
- `src/requests.rs`: the exact X requests that each operation of the XCB connection sends.
- `src/replies.rs`, `src/text.rs`: screens from randr CRTC info, property values from
  replies, and the text of the error messages.
- `src/client_set.rs`, `src/extensions/hooks/mejo13.rs`: the client stack and the
  `ClientPositioning` hooks that rearrange it.
- `app/lib.rs`: `XcbConnection`, which performs the I/O with the `xcb` crate.
