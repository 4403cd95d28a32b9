# turfzone

The booking, wallet, payment and payout rules of the Turfzone turf and court
booking marketplace (Kenya, KES, M-Pesa first), written in Verus and proved
against their contracts.

## Layout

- `src/` — the verified library.
  - `services/` — slot availability, booking holds and cancellation refunds,
    the wallet ledger, payment confirmations, payouts and the notification queue.
  - `paystack.rs` — Paystack request bodies, phone normalization and webhook
    signatures; `mailer.rs` — the Resend mail body and idempotency key;
    `authz.rs` — route access decisions; `api.rs` — what each workflow endpoint
    computes; `settings.rs` — platform settings and their defaults.
  - `time.rs`, `ids.rs`, `hexcode.rs`, `text.rs`, `keyed.rs` — plain models of
    `chrono` instants, random ids, hexadecimal text, strings and keyed records.
- `tests/` — tests run against the compiled library with the real outside crates.
- `app/` — the Umbral web application around the library: routes, ORM models,
  bearer authentication, the environment, and the HTTP calls to Resend.

Every call into an outside crate that the library makes (`chrono`, `uuid`, `hex`,
`hmac`, `sha2`, `reqwest`) goes through a small trusted function. Its contract
states what the crate's source shows of the result, or names the result where it
takes pages to state; where the result depends on the machine (building the HTTP
client) it states nothing. Everything else is proved.
