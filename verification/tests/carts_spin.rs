use carts::cart::{CartItemPatch, DbValue, Price};
use carts::carts_spin::{advance, begin, halt_reason, CartsState};
use carts::exchange::{Event, SqlParam, Statement, Step};
use carts::http::{Body, Method, Response};
use carts::routing::Route;

fn items(id: &str) -> Route {
    Route::CartItems { cart_id: id.to_string() }
}

fn text(status: u16, t: &str) -> Step {
    Step::Reply(Response { status, headers: vec![], body: Body::Text(t.to_string()) })
}

#[test]
fn missing_cart_says_id_not_found() {
    let (s, _) = begin(&Route::Cart { cart_id: "1".to_string() }, &Method::Get);
    assert_eq!(advance(s, &Event::Rows(Ok(vec![]))).1, text(404, "id not found"));
    let (s, _) = begin(&items("1"), &Method::Get);
    assert_eq!(advance(s, &Event::Rows(Ok(vec![]))).1, text(404, "id not found"));
}

#[test]
fn patch_is_echoed() {
    let (s, step) = begin(&items("3"), &Method::Patch);
    assert_eq!(step, Step::ReadPatch);
    let patch = CartItemPatch { id: 1, quantity: Some(2), price: Some(Price::Double(1.5f64.to_bits())) };
    assert_eq!(
        advance(s, &Event::Patch(Ok(patch))).1,
        Step::Reply(Response { status: 200, headers: vec![], body: Body::PatchEcho { cart_id: 3, patch } })
    );
}

#[test]
fn deletes_execute() {
    let (s, step) = begin(&items("3"), &Method::Delete);
    assert_eq!(s, CartsState::Deleting);
    assert_eq!(
        step,
        Step::Run(Statement::Execute {
            sql: "DELETE FROM cart.cart_items WHERE cart_id = $1 ".to_string(),
            params: vec![SqlParam::Int32(3)],
        })
    );
    assert_eq!(advance(s, &Event::Executed(Ok(0))).1, Step::Reply(Response { status: 200, headers: vec![], body: Body::Empty }));
    assert_eq!(advance(s, &Event::Executed(Err("nope".to_string()))).1, text(500, "nope"));
    let one = Route::CartItem { cart_id: "3".to_string(), item_id: "4".to_string() };
    assert_eq!(
        begin(&one, &Method::Delete).1,
        Step::Run(Statement::Execute {
            sql: "DELETE FROM cart.cart_items WHERE cart_id = $1 AND item_id = $2".to_string(),
            params: vec![SqlParam::Int32(3), SqlParam::Int32(4)],
        })
    );
}

#[test]
fn rows_with_other_values_stop() {
    let (s, _) = begin(&items("1"), &Method::Get);
    let rows = vec![vec![DbValue::Int32(1), DbValue::DbNull, DbValue::Floating64(0)]];
    assert_eq!(
        halt_reason(s, &Event::Rows(Ok(rows))),
        Some("called `Result::unwrap()` on an `Err` value: not an int".to_string())
    );
}
