# tower-h3

HTTP/3 through tower's `async fn(Req) -> Res` model: essentially
[h3](https://github.com/hyperium/h3) and
[tower](https://github.com/tower-rs/tower), with the decisions in between
verified by Verus.

- `src/` is the library. It decides, from what the transport and the service
  answered, what is done next and what the caller gets:
  - `client`: connecting to an endpoint, calling over a connection, reading the
    body of a response, and the destination that a URI names;
  - `server`: serving a connection request by request, reading the body of a
    request, the errors of serving, and the making of services;
  - `message`, `frame`, `buffer`, `poll`: messages whose body is exchanged, frames
    of a body, the joining of chunks, and values that may not be there yet.
- `app/` drives the library with `h3`, `tower`, `http_body` and `tokio`: as a
  library of its own (`lib.rs`), and as a client program (`main.rs`).
- `tests/` runs the library on concrete values.

Request bodies and response bodies are not sent yet, and the server does not read
trailers.
