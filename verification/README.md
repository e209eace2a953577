# policy_casbin

A Casbin policy engine for the gateway, `dev.mcpg.policy.casbin`. It translates an
authorization question (decision point, input, context) into a Casbin request tuple, asks an
enforcer about the tuple, and turns the answer into a decision: allow, deny with a reason, or
not applicable.

- `src/` is the library. Every function in it carries a contract that Verus proves; the few
  calls into `casbin`, `serde_json` and the system clock stand behind declarations whose doc
  comments say what is taken for granted.
- `app/` is the plugin: it reads the configuration, loads and watches the model and policy
  files, and talks to the gateway's host and cluster.
- A bundle (`src/bundle.rs`) owns the enforcer that was made of a model and a policy, so that
  nothing changes it. It is asked about the requests on which Casbin cannot panic; which
  matchers those are, `src/matcher.rs` says. The plugin asks about the others itself and hands
  the library the answer.
- `tests/` runs the library on concrete models, policies and inputs.

## Decisions

| Answer of the enforcer | Effect | Reason |
|---|---|---|
| authorized | `Allow` | none |
| not authorized, with matching lines | `Deny` | the lines, joined |
| not authorized, nothing matched, `on_default_deny: not_applicable` | `NotApplicable` | none |
| not authorized, nothing matched, `on_default_deny: deny` | `Deny` | `casbin: default-deny (no policy matched)` |
| failure | `Deny` | `casbin enforce error: …` |
