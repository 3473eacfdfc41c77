# xedio

Verified core of the xedio replicated data service and of the kuberic
operator's node maintenance controller, written in Verus.

`src/` holds the logic with its contracts and proofs:

- `maintenance_api` – maintenance operations, desired states and phases; the
  phase transition rules and their laws (terminal phases are final,
  preparation cannot be skipped, release is possible from every active phase).
- `maintenance_status` – the request spec and status records, their views,
  exact comparison and copying of statuses.
- `maintenance_controller` – which pods belong to a replica set, how a node
  lookup is read, and one reconcile run of a request as a state machine
  (nodes looked up, pods listed only for a found node, statuses written only
  when they change, failures reported).
- `maintenance_requests` – how a watched request is received: deletion,
  naming, not-before and deadline instants, requeue delays.
- `replication` – replica-set vocabulary, the replica manager's bookkeeping of
  current and previous configurations, and majority-quorum intersection.
- `primary`, `repl_mgr` – the primary's event loop and the replication
  progress bookkeeping.
- `leader`, `greeter`, `storage` – the data application's leader election
  loop, greeting, and file-storage request rules.

`app/` holds what cannot be verified: Kubernetes and file-system I/O, async
plumbing, the serialisable custom-resource types, and the drivers that run the
library's state machines. `tests/` exercises the library on concrete values.
