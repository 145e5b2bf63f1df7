# alfredodev

The verified core of the alfredodev finance platform and of its command-line
client `spcli`, written in Verus.

- `src/` is the library. Its own functions carry `requires`/`ensures`
  contracts that Verus proves: the domain enumerations and their form values,
  the admin forms and JSON payloads (accounts, categories, contacts, recurring
  plans, planned entries and their payments, transactions, forecasts, orders,
  companies), access checks, listing pages and select options, the CFDI
  documents (XML summary, stored record, ZIP packages, listing rows), the
  monthly plan of SAT downloads and the background job's bookkeeping, the
  client's argument checks, reply handling and company selection, the
  encrypted credential envelope, and TOTP sign-in.
  Calls into outside crates (XML parsing, ZIP reading, date and time
  handling, the clock, hashing and encryption, randomness, Base32/Base64,
  slugs, URLs, TOTP codes) go through small trusted wrappers marked
  `#[verifier::external_body]`: Verus believes their contracts without
  proof, and their doc comments say what is assumed.
- `tests/` runs the library on concrete values.
- `app/` is the `spcli` program: argument parsing, the credential file, and
  the HTTP calls, handing plain values to the library and printing its answers.

The platform's web server (its routes, sessions, database and templates) is
not part of this crate: the library holds the decisions its handlers make,
and nothing here serves HTTP or talks to the database.
