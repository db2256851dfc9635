# rust_compose

A verified layered-gate composition for a secret-store stack (External
Secrets Operator with an AWS Secrets Manager or HashiCorp Vault backend).

- `src/state.rs` fills in the defaults of the stack's input, and computes the
  status.
- `src/gate.rs` holds the two signals: sticky existence, which alone gates the
  render of dependent resources, and readiness, which gates Usage locks only.
- `src/json.rs` models the unstructured documents of the composed resources,
  with a recursive merge of chart values.
- `src/resources.rs` builds each composed resource; each builder's contract
  states the whole document.
- `src/desired.rs` accumulates the desired resources by name in an
  `indexmap::IndexMap`, with layered gates.
- `src/compose.rs` holds one reconcile's gate graph; its contract states the
  exact list of desired resources, and its laws state what the gates promise.
- `app/` converts documents to and from `serde_json::Value` and holds the
  serialisable forms of the enums.
