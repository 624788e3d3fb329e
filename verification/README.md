# block_repair

The repair of blocks in a cluster, verified with Verus.

Two things are here:

* the threads that ask for blocks by their id and take in the responses: which requests are made
  again and when, how requests and responses are counted, and when the counters are reported;
* a repair handler that equivocates on purpose, to try out how a cluster copes with a leader that
  does: which requests it answers with other shreds, and how it makes the block that each requester
  consistently gets.

`src/` holds the decisions, each with its contract. What a decision needs from the clock, the
ledger or the shredder comes in as a plain value. A decision that spans several such answers is a
chain of types, each of which takes one answer to the next (`block_generation`, `shred_generation`,
`repair_response`). The proof functions whose names begin with `law_` state what holds of the
library as a whole.

`app/` holds the threads, the channels, the socket and the calls into the ledger.

Contracts that are believed without proof belong to functions marked `external_body`. They call
SHA-256, the entry hash, the public key of a keypair, the counter behind unique hashes
(`hashing`), the concurrent map of request times (`request_statuses`) and the system clock
(`clock`).
