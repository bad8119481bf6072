# ono_kubernetes_plugin

Answers an interactive shell's queries from a Kubernetes cluster, and makes one change at a time.

`src/` is the library. Everything in it computes on plain values and is verified with Verus: what is
read of a cluster, what an answer means, what a record shows, what a change writes, and when an
invocation is over. Loops that wait on a cluster (a live watch, one response of it, a verification
after a change) are state machines there.

`app/` is the binary round it: it speaks the host's protocol, opens the brokered connection, performs
the requests and hands the answers back.

`tests/` runs the library, with `serde_json` linked.

## What is trusted

- `text.rs`: `String::push`, `String::from_utf8`, `String::from_utf8_lossy`.
- `json.rs`: `serde_json::Number` and its `clone`.
- `document.rs`: `serde_json::Value`, taken apart and put together one layer at a time, and the
  reading and writing of JSON text. What the grammar of JSON is stays `serde_json`'s.
