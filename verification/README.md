# rutmf

A client library for the TM Forum Open APIs (TMF630 conventions, and the
resource models of the account, alarm and customer-bill APIs), written in
Verus: the request-building, paging, retrying, error-interpreting and
model logic carries `requires`/`ensures` contracts that Verus proves.

## Layout

- `src/` — the verified library.
  - `api/` — TMF630 querying (`query`), `Link` header reading (`link`),
    paging state (`page`), origin checks and failure interpretation
    (`client`), conditional requests (`conditional`), retry policy and its
    laws (`retry`), authentication headers and token timing (`auth`),
    notification hubs (`hub`), request/response values (`transport`).
  - `model/` — shared TM Forum types: references, characteristics and their
    value kinds, events, extension members, errors, value objects.
  - `account/`, `alarm/`, `bill/` — per-API enumerations and models.
  - `text`, `entries`, `time` — string, sorted-list and clock helpers the
    rest builds on.
- `tests/` — executable tests of the library.
- `app/` — the unverified shell: the async transport over `reqwest`, the
  serde copies of library types, the retry and paging drivers that sleep and
  await, and the typed client methods that encode and decode JSON.

Calls into `std` and outside crates that the proofs rely on go through small
wrappers marked `#[verifier::external_body]`, each documented with what its
contract claims of the call it makes.
