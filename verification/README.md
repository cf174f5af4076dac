# pixiechess_client

Client for the public PixieChess HTTP API (`api.pixiechess.xyz`), in two
parts.

- `src/` is the library, verified with Verus. It holds every decision the
  client makes: the request each endpoint builder describes (path and query
  parameters, in order), the client configuration (base URL, the
  browser-like default headers and the checks on them), what a response
  status means, the page walk behind every auto-paginating endpoint, and the
  date rules of the response models. The laws of the page walk are in
  `src/pagination.rs`, the stream law of each auto-paginating endpoint
  beside its builder in `src/resources/`, and those of the client
  configuration in `src/client.rs`.
- `app/` is the async client around it: it sends the requests with
  `reqwest`, decodes bodies with serde into the typed models (which carry
  floats and timestamps), and turns a page walk into a `Stream`.
- `tests/` runs the library on concrete inputs.

```rust,ignore
let client = PixieChessClient::new()?;
let page = client.send(&client.leaderboard().get().page(2).page_size(25)).await?;
let mut entries = client.stream(client.leaderboard().iter());
```
