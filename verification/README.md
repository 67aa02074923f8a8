# s2c

The networking core of an S2C node, written in Verus: the client and server sides of the
message protocol between nodes, with the options, errors, retry policy and framing that they
share.

The core does no input or output. Each long-running task of a client or server is a state
machine in `src/`: a step takes an event, updates the state and says what to do next. Its
contract states exactly which action and which state follow from which event, and public proof
functions (`law_...`) state what holds across steps and between the two sides of a connection.

* `src/` is the verified library.
  * `backoff`, `config`, `context`, `error`: the retry policy, the options, what a node knows
    of itself, and the failures of the service.
  * `registry`, `text`: a table under unique keys, and decimal notation.
  * `proto`: the messages.
  * `network`: framing and reading of messages, open requests, the client, the server of a
    node and the server of a group. `network::channel` and `network::correlation` hold the calls
    into tokio and uuid.
* `tests/` holds the tests.
* `app/` runs the state machines over tokio: sockets, timers, tasks, the wire encoding, random
  jitter, and the errors as standard errors.
