# server

The decision logic of an authentication server, verified with Verus.

- `src/` is the verified library: the admin console's asset lookup
  (`admin`), account creation and the admin guard (`data::admin`), session
  tokens (`session::data::token`), passwordless sign-in (`passwordless::verify`)
  and sign-out (`user::sign_out`) as step functions from state and event to
  next state and action, user listing parameters (`user::list`) and flag
  listings (`project::flags`).
- `app/` is the Rocket side: routes, request guards, JSON bodies, and a
  `Backend` trait for the database and key storage that drives the library's
  step functions.
- `tests/` runs the library on concrete inputs.
