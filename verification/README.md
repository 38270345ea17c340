# pd_router

A router for language-model inference that is split over two kinds of worker: a
*prefill* worker computes the state of a prompt, a *decode* worker generates from it.
For every request the router chooses a pair, waits until the prefill worker has room,
sends the request to both with a place where they meet, and answers with what the
decode worker generates.

`src/` is the library: everything that is decided on the way, verified with Verus.

| module | what it holds |
| --- | --- |
| `router` | the router itself |
| `config` | settings of the room limiter, as the environment gives them |
| `admission` | rooms of prefill workers: taking, queueing, giving back |
| `worker` | workers, and the choice of a pair |
| `context` | what is kept of a request while it is served |
| `request` | request bodies: identifier, meeting place, data-parallel ranks |
| `headers` | reading and forwarding headers |
| `attempt` | one attempt, stage by stage |
| `dispatch` | the answers of the two workers, and what circuit breakers are told |
| `stream`, `sse` | streamed responses and their terminal line |
| `logprobs` | joining the log-probabilities of prefill and decode |
| `replies`, `status` | error replies |
| `json`, `text` | documents and texts |

`app/` is the service around it: HTTP, the environment, timers and tasks. `tests/`
runs the library with the real crates.
