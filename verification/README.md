# tool_issuance

The record store and terminal logic of a tool issuance system: employees,
tools and categories, the issuance of tools to employees and their return,
write-offs, the overview figures, and what each action of the login screen,
the administrator's forms and the issuance terminal does to the application
state. The library in `src/` is verified with Verus; `app/` is the egui
window around it, which also reads and writes `data/data.json`.

- `src/data.rs`: records, the store and its operations.
- `src/session.rs`: the application state and its actions.
- `src/laws.rs`: properties spanning several operations.
- `src/search.rs`, `src/text.rs`, `src/arith.rs`: first-match lookup, text
  operations and `i32` wrapping arithmetic used by the contracts.
- `src/runtime.rs`: fresh UUIDs and the clock.
