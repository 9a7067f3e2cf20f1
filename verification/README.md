# dawnjection

A dependency-injection container verified with Verus.

Services are registered in a `ServiceCollection` under a type key, each with a
kind: singleton, mutable singleton, cloneable value, factory, or one-shot
(takeable) value. The collection is built into a `ServiceProvider`; a provider
moves into a scope that adds its own registrations, and `into_root` ends the
scope with everything written to the root registrations kept. Every request is specified
over `ProviderModel`, the mathematical view of a provider, and the laws that
relate requests (one-shot values are handed out once, what is written to a
mutable singleton is read back, scopes see the root registrations, ...) are
proved as lemmas beside the code.

Layout:

- `src/`: the verified library — the container (`descriptor`, `collection`,
  `provider`), handler registries and requests (`handler`), the decisions of
  the NATS dispatcher (`nats`), the argument analysis of the injection code
  generator (`codegen`), and the extractors for Rocket and Axum (`rocket`,
  `core_axum`).
- `app/`: the runtime around it — async handler traits, the NATS dispatch loops
  and client, and the generator's token output.
- `tests/`: tests of the library.
