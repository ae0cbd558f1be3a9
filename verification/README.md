# bria

The accounting, scheduling and event-outbox logic of a bitcoin payout wallet
service, written in Verus with its behaviour stated in contracts and proved.

- `src/ledger`: the double-entry templates the service posts (each proved to
  balance on every layer), the values each posting takes, the wallet and
  omnibus ledger accounts, and what later postings read back of earlier ones
  (a dropped UTXO's posting is proved to undo its detection).
- `src/outbox`: per-account event streams: numbering (consecutive per
  account), the listener's cache and hand-out state machine, and augmentation
  lookups. Whatever it is driven by (polls, events heard live, pages read,
  augmentation outcomes), the listener is proved to hand out its account's
  events numbered one after another from where it stood, each taken in
  before; with no new events heard, it hands out exactly what it held, in
  order (`lemma_listener_hands_out_in_order_while_hearing`,
  `lemma_listener_hands_out_in_order`).
- `src/job`, `src/job_svc`: the background jobs' data and decisions (wallet
  sync, signing rounds, batch accounting, spawning on channels).
- `src/fees`: fee estimator configuration and the choice of estimate.
- `app/`: serde forms, fee responses in floating point, and the ledger's
  decimal and date formats, around the library.
