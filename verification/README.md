# openai

Strictly typed bindings for the OpenAI Responses API, with a proved contract on every function.

Bring your own HTTP client. The library builds a validated request body and decodes the response
and its streamed events; the caller owns the socket.

Two kinds of mistake cost real money on this API: parameter combinations it refuses, and requests
that silently destroy the prompt cache. The types make the first kind unwritable and the second
hard to write by accident, and Verus proves that the code keeps what the types promise.

## Layout

| Place | What it holds |
| --- | --- |
| `src/content.rs`, `src/context.rs` | content blocks, the append-only conversation, the four breakpoint slots |
| `src/tools.rs`, `src/model.rs`, `src/prefix.rs` | tools and the choice among them, models and their facts, what determines the hashed prefix |
| `src/request.rs`, `src/body.rs` | per-call settings, the cache-write budget, the body |
| `src/stream.rs`, `src/decode.rs`, `src/items.rs`, `src/hosted.rs` | streamed events and how frames become them |
| `src/settle.rs`, `src/settled.rs`, `src/response.rs`, `src/usage.rs` | a stream folded into one response, buffered responses, cost |
| `src/values.rs`, `src/metadata.rs` | the wire vocabulary, metadata and its limits |
| `src/json.rs`, `src/text.rs`, `src/ordered.rs`, `src/views.rs` | JSON values, text, ordered maps, views |
| `src/*_laws.rs` | what holds across several functions |
| `app/` | `serde`, `std::error::Error` and floating point around the library |
| `tests/` | tests on concrete values |

## What is proved

Every function states what it returns or changes over mathematical views: a body is given field
by field, a decoded frame by what its JSON holds, a settled stream by the events it was made of.
The laws say what that adds up to. A few of them:

* per-call settings never change a field the prefix is rendered from, and a later turn's body
  only appends to `input`;
* a body carries at most one caching field, `stream_options` only beside `stream: true`, and no
  empty `reasoning` object;
* the four slots count every breakpoint a conversation carries, so there is no fifth; an anchored
  slot never moves, and placing, rolling and clearing change no content;
* a stream settles exactly when a terminal event was among its events, and the first one stands;
* an event type the library does not know is never an error, and a decoded event names the type it
  was decoded from.

## What is trusted

Text becomes JSON through `serde_json`: `json::parse_value` calls it and `json::open_value` hands
out what a `serde_json::Value` holds. `text.rs` wraps five operations of `str`: `==`, `<`,
`strip_prefix`, `trim` and `Debug`. Everything else is verified.
