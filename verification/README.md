# carts

A shopping-cart microservice and an order service for WebAssembly hosts
(Spin and wasmCloud), written as a Verus library whose handlers decide
every response and every database statement, and an outer crate that runs
them.

## Services

- `/carts-rs/{cartId}`, `/carts-rs/{cartId}/items`,
  `/carts-rs/{cartId}/items/{itemId}`: the Spin cart service
  (`src/carts_rs.rs`): get a cart, list, add, patch and delete its items,
  delete one item.
- `/carts/...`: the first Spin cart service (`src/carts_spin.rs`).
- `/carts-wcrs/...`: the wasmCloud cart service (`src/wasmcloud.rs`), with
  the same routes and methods.
- The order service (`src/orders.rs`): reserves stock line by line and
  records the customer, the order and its items.

## Layout

- `src/` — the verified library:
  - `text.rs`: reading identifiers (`u32`) and writing decimal numbers;
  - `routing.rs`: matching request URLs against the route patterns
    (with the `url` and `urlpattern` crates);
  - `cart.rs`: cart items and the database values they are read from;
  - `http.rs`: methods and responses as plain values;
  - `exchange.rs`: the steps a Spin cart handler asks its host for;
  - `carts_rs.rs`, `carts_spin.rs`, `wasmcloud.rs`, `orders.rs`: the
    handlers, each a state machine from what the host hands back to the
    next statement or response.
- `tests/` — tests of the library.
- `app/` — the Spin components: they read requests, run the statements
  and reads the handlers ask for, write JSON bodies, and send responses.
  Each component is built on its own; here only the `/carts-rs` handler
  carries the `#[http_component]` export. The wasmCloud component is not
  here: its bindings come from WIT files that this project does not hold.

Where a service stops (a panic), the library leaves that input out of the
`requires` of its `advance`; `halt_reason` says, for the same input, the
message the service stops with, and the host stops with it.
