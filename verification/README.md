# rust_context_emulation

An experimental emulation of *contexts* in Rust: functions receive the
capabilities they need (shared or mutable references to capability values)
through a `Store`, a 4-slot tuple of `Handle`s indexed by each capability's
`Index`. Contexts are built with `push`, read with `extract_ref` /
`extract_mut`, handed on with `reborrow`, and reshaped with `coerce`; the
types involved are computed at the type level (`MakeContext`, `Unify`,
`LimitBy`, `HaveLocalReferenceTo`, `Select`).

The library is written in Verus. Every runtime operation carries a contract,
and the laws listed below are proved. Two things are not stated: that writes
made through a reborrowed `Store` come back to the store it was taken from
(this is stated for a single `Handle`, but carrying it through the generic
`Reborrow` trait needs a prophetic spec function), and that unifying contexts
can always be undone by coercion (this holds for the impls here, but it is
about which impls exist, and no proof states it).

- `indexed_tuple`: `Get` / `Put` and their laws (a slot reads back what was
  written to it, a put hands back the previous value), proved for each slot
  of `Tuple4` in `tuple4`, together with the laws that a second put into a
  slot replaces the first, that puts into different slots commute, and that
  a put leaves the other slots alone (`PutTwice`, `PutCommute`);
- `context::handle`: `Handle`, the wrapper around one reference;
- `context::store`: `Store`, pushing and extracting capabilities, and the
  laws that a push overwrites what the slot held, that a second push of a
  capability replaces the first, and that pushes of capabilities with
  different indices commute;
- `ops`: besides the operations, the coercion laws `CoerceIdentity`
  (coercing to the own type changes nothing) and `CoerceTwice` (two
  coercions in a row give what one gives), proved for every slot kind, for
  `Tuple4` and for `Store`;
- `ops`, `option`, `reference`, `lifetime`: the type-level operations;
- `cxfn_trait`: the two flavours of contextual function traits, with
  `prelude_input` and `prelude_gat` gathering what users need.

A capability implements `Capability`, including `payload`, the value it wraps,
which must be what `as_ref` returns. A `Handle` to a shared reference is
`Copy`, so a context that holds only shared references can be copied.
