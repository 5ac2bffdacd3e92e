# en16931

The EN 16931-1 semantic invoice model, its business rules, and the German
XRechnung CIUS, written in Verus: the code in `src/` is verified, and its
functions state in contracts what they compute.

## Layout

- `src/amount.rs`, `src/numeric.rs`, `src/decimal.rs`, `src/date.rs`,
  `src/identifier.rs`, `src/attachment.rs` — the semantic data types of §6.5:
  two-decimal amounts held as minor units, unbounded decimals, calendar days
  with a proved day-number bijection, identifiers and binary objects.
- `src/invoice.rs`, `src/bt.rs`, `src/codes/` — the invoice model, business
  term and group paths, VAT categories and the code lists the rules read.
- `src/reconcile.rs` — derives BG-23 and the document totals from the lines,
  allowances and charges; its laws state that the result passes the
  arithmetic rules and that reconciling twice changes nothing.
- `src/validation/` — the rule registry (id, severity, provenance, terms and
  the authority's wording of each rule), the rules themselves, the engine
  whose report is specified finding by finding, and profiles: restrictions as
  data, `Validated<P>` and the `Underlies` relation between profiles. The
  VAT derivation (`BR-CO-17`, the `-09` rows) is the artefacts' XPath
  arithmetic: ties round towards +∞, ±1.00 on absolute values, and a group
  whose product overflows is passed over without silencing the rest.
- `src/profiles.rs` — the core model, XRechnung 3.0 and its Clean Vehicles
  variant.
- `src/svrl.rs` — the report as Schematron SVRL, with laws that escaped text
  and comments cannot break the document.
- `app/` — serde and `thiserror` companions of the library's types (the
  whole invoice model in `app/model.rs`), and `Display` for them.

`rust_decimal`, `sepa`, `chrono` and `time` are called from `src/` through
small trusted wrappers whose contracts state what those crates document.
