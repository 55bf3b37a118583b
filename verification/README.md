# v2board_application

The application layer of a subscription-service panel: accounts and
sessions, registration and login, orders and renewals, payment methods,
plans, promotions, server nodes, configuration, tickets, content and the
scheduled jobs, written in Verus with its rules proved.

## Layout

- `src/` is the verified library. Each use case keeps its decisions here as
  functions with `requires`/`ensures` contracts over spec functions and
  views. Use cases that wait on storage, caches or mail between decisions
  (login, registration, privileged step-up) are state machines: a step
  function takes the state and the answer of the last call and gives the
  next state and the next call.
- `src/keyed_map.rs` is the string-keyed map the configuration and payment
  rules use; its invariant keeps the keys unique and ascending.
- `app/` is ordinary Rust around the library: the asynchronous drivers that
  run the state machines against the storage and network ports, the domain
  rules supplied through traits, and the float-valued reports.
- `tests/` exercises the library from outside.

## Checking

`src/` is checked by Verus; `tests/` runs with the compiled library.
