# anda

The core logic of the Anda agent framework, written in Verus and proved
against its contracts: object-store paths, function names and the registries
of agents, tools and remote engines, thread permissions and membership in the
Anda Nexus, paging of threads and messages, user states, attention decisions,
the prompts that characters and agents send to models, and the conversion of
model providers' responses.

## Layout

- `src/` — the verified library. Each module states its data with views and
  well-formedness predicates, and each public function states what it returns
  or changes. Calls into outside crates (`object_store`, `isolang`, `url`,
  `serde_json`, `const-hex`, `base64`) stand behind small trusted wrappers whose
  doc comments say what they claim.
- `tests/` — tests of the library on concrete values.
- `app/` — the command-line client and the glue that Verus does not see:
  configuration files, JSON wire formats, the cache expiration policy, and the
  asynchronous context features.

Run `verus` on `src/lib.rs` to check the proofs.
