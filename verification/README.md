# carteira

The verified core of the "Carteira Digital" investment wallet, a web
application in which users register, log in, buy and sell assets and follow
the profit and loss of their positions.

- `src/` is the library, verified with Verus:
  - `error.rs`: the errors of the application, their HTTP statuses and the
    JSON body they are answered with;
  - `auth.rs`: registration and login decisions, the administrator account,
    and the password hashing of `password-auth` behind trusted wrappers;
  - `policy.rs`: the checks that the request handlers make before a request
    reaches the store;
  - `ledger.rs`: the kinds of recorded transaction and the role each plays in
    profit and loss.
- `app/` is the HTTP server (axum, PostgreSQL through sqlx, askama pages,
  JWT sessions). The store and the floating-point portfolio arithmetic live
  there.
- `tests/` runs the library with the real outside crates.
