# typst_pack

The decision-making core of typst-pack, written in Verus: the values,
admission rules, resource limits, transport settlement, dependency
fulfillment, page selections, publication planning and preflight of
packing Typst projects, each with a contract that Verus proves.

## Layout

- `src/` — the verified library.
  - `lib.rs`: domain values (identities, paths, admission, resource-limit
    admission, deadlines).
  - `text.rs`, `syntax.rs`, `order.rs`: character classes, the syntax of
    domain values, and the code-point order of texts.
  - `transport.rs`, `pack.rs`, `authority.rs`, `identity.rs`: byte transport
    and spooling, pack-level values, package and font authorities with their
    caches, implementation identities.
  - `creation.rs`, `compilation.rs`, `representation.rs`, `session.rs`:
    requests, controls and limits of creation, compilation, representation
    and compilation sessions.
  - `fulfillment.rs`, `exactness.rs`, `fulfillment_set.rs`,
    `fulfillment_report.rs`: resolving external fonts, checking that a
    fulfillment set is exactly what a pack requires, and reporting it.
  - `pages.rs`, `request.rs`: the `--pages` syntax, canonical page
    selections, the issues that refuse a compilation request and the
    features and tagging a compilation runs with.
  - `artifact_publication.rs`, `publication.rs`, `preflight.rs`,
    `extract.rs`: naming compilation artifacts, staging and preflight of
    filesystem publication (per platform), and extraction messages.
  - `publication_steps.rs`: the order of a filesystem publication as a
    state machine that the caller drives.
  - `value_order.rs`: equality and order of small value types.
  - `preparation.rs`, `listing.rs`: the decisions of preparing a
    compilation, and the text that inspecting a pack prints.
  - `command_text.rs`: output path templates, output format inference,
    `key=value` inputs, Makefile and NUL-separated dependency lists, and the
    command line's checks on standard input and output, output targets and
    export workers.
- `tests/` — tests of the library on concrete values.
- `app/` — a small command-line front end that performs the filesystem
  effects the library decides on.
