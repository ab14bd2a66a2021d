# hephaestus

Validated domain model of the Hephaestus fleet-control plane, its control-plane
contract types, and the host-neutral application kit it runs on, written in
Verus: every function states its behaviour in `requires`/`ensures` clauses and
is proved against them.

## Layout

- `src/text.rs` — the character-level model shared by all validated values:
  Unicode whitespace, trimming, UTF-8 byte lengths, character classes, and the
  `token_outcome` rule (trim, refuse empty, refuse too long, refuse foreign
  characters). The few calls into std and outside crates (`subtle`, `zeroize`,
  `core::net` address parsing, `String::push`) sit
  here behind small trusted wrappers whose contracts say what those functions
  do.
- `src/hephaestus/` — servers, nodes, agents, reports, DNS, regions, inventory
  rows and health probes.
- `src/vultr/` — Vultr identifiers, resource snapshots, and the cloud-init
  bootstrap specification.
- `src/contract/` — request/response and catalog types of the control-plane
  contract, the provider location table, the agent registration payload, and
  RPC method paths; `wire.rs` holds the plain protocol messages (an empty
  string or zero means "absent", every enumeration has an `Unspecified`
  value), and `domain_conversion.rs`, `report_conversion.rs` and
  `vultr_conversion.rs` convert them to and from validated domain values,
  each direction stated over the message's text content. Writing a domain
  value to the wire gives a message that reading accepts unchanged, so a value
  comes back with the same content.
- Secrets (agent boot and control secrets, runtime tokens, cloud-init user
  data) are overwritten with zeros when they are dropped, and on request.
- `src/kit/` — adapter conventions, generic app shapes, the JSONC comment
  stripper, cookie settings and contract descriptors.
- `app/` — host-side glue that Verus does not see: serde parsing of JSONC
  config into caller types, serde and `std::error::Error` companions, and the
  app-owned `AppConfig` trait.
- `tests/` — scenario tests and concrete instances of the proved laws.
