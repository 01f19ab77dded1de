//! A shopping-cart service and an order service, as request handlers that
//! decide every response and every database statement, and leave the
//! performing of requests and statements to their host.
pub mod cart;
pub mod carts_rs;
pub mod carts_spin;
pub mod exchange;
pub mod http;
pub mod orders;
pub mod routing;
pub mod text;
pub mod wasmcloud;
