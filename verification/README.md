# motorsport_backend

The back end of a motorsport operations service: events and ruleset versions,
physical assets with encrypted serial numbers, invoices with line items and
discounts, an analytics catalog with trend, funnel and retention reports,
data-quality scans, an audit trail, sessions and roles, and nightly database
backups.

## Layout

- `src/` is the library, written in Verus, with the service's rules and their
  contracts: parsing and validation, the decimal arithmetic of invoices, status
  lifecycles, the records written on create and update, the role table, report
  shapes and CSV texts, the query texts of the trend, funnel and retention
  reports and of data-quality scans, duplicate grouping, session sliding, the
  rate limit, backup naming, listing and rotation, and field encryption. Calls
  into `rust_decimal`, `chrono`, `aes-gcm`, `base64`, `hmac`, `sha2`, `hex`,
  `uuid` and `argon2` go through small trusted wrappers whose contracts say what
  those crates return.
- `app/` is the HTTP server around the library (Rocket and sea-orm): request
  guards, routes, database reads and writes inside their transactions,
  file-system work for backups, the floating-point parts (depreciation amounts,
  outlier z-scores) and the JSON audit snapshots, whose serial number is always
  the library's redaction token.
- `tests/` exercises the library on concrete values.
