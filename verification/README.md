# yazelix_transport

A loopback transport that lets another local process hand one authenticated,
newline-terminated JSON request at a time to an editor-side Steel handler.

- `src/` is the verified library: request framing (`wire::check_frame`),
  validation and authentication (`wire::admit_request`, `text::tokens_match`,
  `text::is_blank`), the handler wait (`wait`), response bounds (`response`)
  and the server lifecycle decisions (`lifecycle`), each with its contract,
  and the laws that hold across them.
- `app/` binds the socket, runs the listener thread, encodes and decodes JSON
  and registers the `yazelix/transport` Steel module; it calls the library for
  every decision.
- `tests/` exercises the library on concrete requests and responses.
