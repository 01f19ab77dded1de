use carts::cart::{CartItem, CartItemPatch, DbValue, Price};
use carts::carts_rs::{advance, begin, get_cart_answer, halt_reason, patch_statement, RsState};
use carts::exchange::{Event, SqlParam, Statement, Step};
use carts::http::{Body, Header, Method, Payload, Response};
use carts::routing::Route;

fn cart(id: &str) -> Route {
    Route::Cart { cart_id: id.to_string() }
}

fn items(id: &str) -> Route {
    Route::CartItems { cart_id: id.to_string() }
}

fn bare(status: u16) -> Step {
    Step::Reply(Response { status, headers: vec![], body: Body::Empty })
}

fn text(status: u16, t: &str) -> Step {
    Step::Reply(Response { status, headers: vec![], body: Body::Text(t.to_string()) })
}

fn json(p: Payload) -> Step {
    Step::Reply(Response {
        status: 200,
        headers: vec![Header { name: "Content-Type".to_string(), value: "application/json".to_string() }],
        body: Body::Json(p),
    })
}

fn query(sql: &str, params: Vec<SqlParam>) -> Step {
    Step::Run(Statement::Query { sql: sql.to_string(), params })
}

fn item(id: u32, quantity: u32, price: f64) -> CartItem {
    CartItem { id, quantity, price: Price::Double(price.to_bits()) }
}

#[test]
fn get_cart_found_and_missing() {
    let (s, step) = begin(&cart("5"), &Method::Get);
    assert_eq!(s, RsState::Cart { cart_id: 5 });
    assert_eq!(step, query("SELECT * FROM cart.cart_items WHERE cart_id = $1;", vec![SqlParam::Int32(5)]));
    let row = vec![DbValue::Int32(5), DbValue::Int32(1)];
    let (s2, step2) = advance(s, &Event::Rows(Ok(vec![row])));
    assert_eq!(s2, RsState::Finished);
    assert_eq!(step2, json(Payload::Cart { customer_id: 5 }));
    let (_, step3) = advance(s, &Event::Rows(Ok(vec![])));
    assert_eq!(step3, text(404, "not found"));
    let (_, step4) = advance(s, &Event::Rows(Err("connection refused".to_string())));
    assert_eq!(step4, Step::Fail("connection refused".to_string()));
}

#[test]
fn cart_route_rejections() {
    assert_eq!(begin(&cart("x"), &Method::Get).1, bare(400));
    assert_eq!(begin(&cart("5"), &Method::Post).1, bare(400));
    assert_eq!(begin(&items("x"), &Method::Get).1, text(400, "invalid digit found in string"));
    assert_eq!(begin(&items("5"), &Method::Put).1, bare(400));
    let unmatched = begin(&Route::Unmatched, &Method::Get).1;
    assert_eq!(
        unmatched,
        Step::Reply(Response {
            status: 404,
            headers: vec![Header { name: "content-type".to_string(), value: "text/plain".to_string() }],
            body: Body::Empty,
        })
    );
}

#[test]
fn large_cart_id_wraps_in_parameter() {
    let (_, step) = begin(&cart("4294967295"), &Method::Get);
    assert_eq!(step, query("SELECT * FROM cart.cart_items WHERE cart_id = $1;", vec![SqlParam::Int32(-1)]));
}

#[test]
fn list_items() {
    let (s, step) = begin(&items("3"), &Method::Get);
    assert_eq!(
        step,
        query("SELECT item_id, quantity, price FROM cart.cart_items WHERE cart_id = $1", vec![SqlParam::Int32(3)])
    );
    let rows = vec![
        vec![DbValue::Int32(1), DbValue::Int32(2), DbValue::Floating64(19.99f64.to_bits())],
        vec![DbValue::Int64(2), DbValue::Uint8(7), DbValue::Floating32(1.5f32.to_bits())],
    ];
    let (_, step2) = advance(s, &Event::Rows(Ok(rows)));
    assert_eq!(
        step2,
        json(Payload::Items(vec![
            item(1, 2, 19.99),
            CartItem { id: 2, quantity: 7, price: Price::Single(1.5f32.to_bits()) },
        ]))
    );
    let (_, empty) = advance(s, &Event::Rows(Ok(vec![])));
    assert_eq!(empty, text(404, "not found"));
    let bad = vec![vec![DbValue::Str("x".to_string()), DbValue::Int32(1), DbValue::Floating64(0)]];
    assert_eq!(
        halt_reason(s, &Event::Rows(Ok(bad))),
        Some("called `Result::unwrap()` on an `Err` value: not an int".to_string())
    );
    let good = vec![vec![DbValue::Int32(1), DbValue::Int32(2), DbValue::Floating64(0)]];
    assert_eq!(halt_reason(s, &Event::Rows(Ok(good))), None);
}

#[test]
fn listing_stops_at_the_first_bad_row() {
    let (s, _) = begin(&items("3"), &Method::Get);
    let rows = vec![
        vec![DbValue::Int32(1), DbValue::Int32(2), DbValue::Floating64(0)],
        vec![DbValue::Int32(1), DbValue::Int32(2)],
        vec![DbValue::Int32(1), DbValue::Int32(2), DbValue::Str("p".to_string())],
    ];
    assert_eq!(
        halt_reason(s, &Event::Rows(Ok(rows))),
        Some("index out of bounds: the len is 2 but the index is 2".to_string())
    );
    let rows = vec![vec![DbValue::Int32(1), DbValue::Int32(2), DbValue::Str("p".to_string())]];
    assert_eq!(
        halt_reason(s, &Event::Rows(Ok(rows))),
        Some("called `Result::unwrap()` on an `Err` value: not a float".to_string())
    );
    assert_eq!(
        halt_reason(s, &Event::Rows(Ok(vec![vec![]]))),
        Some("index out of bounds: the len is 0 but the index is 0".to_string())
    );
}

#[test]
fn cart_answer_from_lookup() {
    let row = vec![DbValue::Int32(1)];
    assert_eq!(get_cart_answer(4, &Ok(vec![row])), json(Payload::Cart { customer_id: 4 }));
    assert_eq!(get_cart_answer(4, &Ok(vec![])), text(404, "not found"));
    assert_eq!(get_cart_answer(4, &Err("down".to_string())), Step::Fail("down".to_string()));
}

#[test]
fn post_item() {
    let (s, step) = begin(&items("9"), &Method::Post);
    assert_eq!(step, Step::ReadItem);
    let (_, bad) = advance(s, &Event::Item(Err("expected value at line 1 column 1".to_string())));
    assert_eq!(bad, text(400, "expected value at line 1 column 1"));
    let it = item(123, 2, 19.99);
    let (s2, step2) = advance(s, &Event::Item(Ok(it)));
    assert_eq!(s2, RsState::Inserting { item: it });
    assert_eq!(
        step2,
        Step::Run(Statement::Execute {
            sql: "INSERT INTO cart.cart_items VALUES($1, $2, $3, $4);".to_string(),
            params: vec![
                SqlParam::Int32(9),
                SqlParam::Int32(123),
                SqlParam::Int32(2),
                SqlParam::Floating64(Price::Double(19.99f64.to_bits())),
            ],
        })
    );
    assert_eq!(advance(s2, &Event::Executed(Ok(1))).1, json(Payload::Item(it)));
    assert_eq!(advance(s2, &Event::Executed(Err("dup".to_string()))).1, text(400, "duplicate item"));
}

#[test]
fn patch_statements() {
    let p = |q: Option<u32>, pr: Option<f64>| CartItemPatch { id: 4, quantity: q, price: pr.map(|x| Price::Double(x.to_bits())) };
    let (sql, params) = patch_statement(1, &p(Some(3), Some(2.5)));
    assert_eq!(sql, "UPDATE cart.cart_items SET quantity = $3, price = $4 WHERE cart_id = $1 AND item_id = $2");
    assert_eq!(
        params,
        vec![SqlParam::Int32(1), SqlParam::Int32(4), SqlParam::Int32(3), SqlParam::Floating64(Price::Double(2.5f64.to_bits()))]
    );
    let (sql, params) = patch_statement(1, &p(None, Some(2.5)));
    assert_eq!(sql, "UPDATE cart.cart_items SET price = $3 WHERE cart_id = $1 AND item_id = $2");
    assert_eq!(params.len(), 3);
    let (sql, params) = patch_statement(1, &p(Some(8), None));
    assert_eq!(sql, "UPDATE cart.cart_items SET quantity = $3 WHERE cart_id = $1 AND item_id = $2");
    assert_eq!(params, vec![SqlParam::Int32(1), SqlParam::Int32(4), SqlParam::Int32(8)]);
}

#[test]
fn patch_flow() {
    let (s, step) = begin(&items("1"), &Method::Patch);
    assert_eq!(step, Step::ReadPatch);
    let patch = CartItemPatch { id: 4, quantity: Some(3), price: None };
    let (s2, step2) = advance(s, &Event::Patch(Ok(patch)));
    assert_eq!(s2, RsState::Updating { cart_id: 1, item_id: 4 });
    assert!(matches!(step2, Step::Run(Statement::Execute { .. })));
    assert_eq!(advance(s2, &Event::Executed(Err("boom".to_string()))).1, text(500, "boom"));
    let (s3, step3) = advance(s2, &Event::Executed(Ok(1)));
    assert_eq!(s3, RsState::Reading);
    let select = "SELECT item_id, quantity, price FROM cart.cart_items WHERE cart_id = $1 AND item_id = $2";
    assert_eq!(step3, query(select, vec![SqlParam::Int32(1), SqlParam::Int32(4)]));
    let row = vec![DbValue::Int32(4), DbValue::Int32(3), DbValue::Floating64(1.0f64.to_bits())];
    assert_eq!(advance(s3, &Event::Rows(Ok(vec![row]))).1, json(Payload::Item(item(4, 3, 1.0))));
    assert_eq!(advance(s3, &Event::Rows(Ok(vec![]))).1, text(404, "not found"));
}

#[test]
fn empty_patch_only_reads() {
    let (s, _) = begin(&items("1"), &Method::Patch);
    let patch = CartItemPatch { id: 4, quantity: None, price: None };
    let (s2, step) = advance(s, &Event::Patch(Ok(patch)));
    assert_eq!(s2, RsState::Reading);
    let select = "SELECT item_id, quantity, price FROM cart.cart_items WHERE cart_id = $1 AND item_id = $2";
    assert_eq!(step, query(select, vec![SqlParam::Int32(1), SqlParam::Int32(4)]));
}

#[test]
fn deletes() {
    let (s, step) = begin(&items("2"), &Method::Delete);
    assert_eq!(step, query("DELETE FROM cart.cart_items WHERE cart_id = $1 RETURNING *", vec![SqlParam::Int32(2)]));
    assert_eq!(advance(s, &Event::Rows(Ok(vec![]))).1, text(404, "not found"));
    assert_eq!(advance(s, &Event::Rows(Ok(vec![vec![]]))).1, bare(200));
    let one = Route::CartItem { cart_id: "2".to_string(), item_id: "5".to_string() };
    let (_, step) = begin(&one, &Method::Delete);
    assert_eq!(
        step,
        query(
            "DELETE FROM cart.cart_items WHERE cart_id = $1 AND item_id = $2 RETURNING *",
            vec![SqlParam::Int32(2), SqlParam::Int32(5)]
        )
    );
    let bad_item = Route::CartItem { cart_id: "2".to_string(), item_id: "".to_string() };
    assert_eq!(begin(&bad_item, &Method::Delete).1, text(400, "cannot parse integer from empty string"));
    assert_eq!(begin(&one, &Method::Get).1, bare(400));
}

#[test]
fn events_out_of_turn_stop() {
    assert_eq!(halt_reason(RsState::Finished, &Event::Rows(Ok(vec![]))), Some("unexpected event".to_string()));
    assert_eq!(halt_reason(RsState::Deleting, &Event::Executed(Ok(1))), Some("unexpected event".to_string()));
    assert_eq!(halt_reason(RsState::Deleting, &Event::Rows(Ok(vec![]))), None);
}

#[test]
fn added_items_are_listed() {
    let added = vec![item(1, 2, 19.99), item(4, 1, 0.5), item(7, 3, 100.0)];
    let mut rows = Vec::new();
    for it in added.iter() {
        let (s, _) = begin(&items("5"), &Method::Post);
        let (_, step) = advance(s, &Event::Item(Ok(*it)));
        let params = match step {
            Step::Run(Statement::Execute { params, .. }) => params,
            other => panic!("unexpected step {:?}", other),
        };
        let stored: Vec<DbValue> = params[1..]
            .iter()
            .map(|p| match p {
                SqlParam::Int32(x) => DbValue::Int32(*x),
                SqlParam::Floating64(Price::Double(b)) => DbValue::Floating64(*b),
                other => panic!("unexpected parameter {:?}", other),
            })
            .collect();
        rows.push(stored);
    }
    let (s, _) = begin(&items("5"), &Method::Get);
    assert_eq!(advance(s, &Event::Rows(Ok(rows))).1, json(Payload::Items(added)));
}
