use carts::cart::{CartItem, CartItemPatch, Price};
use carts::http::{Body, Method, Payload, Response};
use carts::routing::Route;
use carts::wasmcloud::{
    advance, begin, cart_item_from_row, cart_items_from_rows, create_response, decompose_f64_custom, halt_reason,
    pg_value_as_float, pg_value_as_int, request_url, PgValue, PgValueError, ResultRowEntry, WcEvent, WcState, WcStep,
};

fn entry(name: &str, value: PgValue) -> ResultRowEntry {
    ResultRowEntry { column_name: name.to_string(), value }
}

fn reply(status: u16, body: Body) -> WcStep {
    WcStep::Reply(Response { status, headers: vec![], body })
}

#[test]
fn decompose_values() {
    assert_eq!(decompose_f64_custom(1.0f64.to_bits()), (0x10000000000000, 0, 0));
    assert_eq!(decompose_f64_custom((-2.0f64).to_bits()), (0x10000000000000, 1, 1));
    assert_eq!(decompose_f64_custom(0.0f64.to_bits()), (0, -1023, 0));
    let bits = 19.99f64.to_bits();
    let (m, e, s) = decompose_f64_custom(bits);
    assert_eq!(s, 0);
    assert_eq!(e, 4);
    assert_eq!(m, (bits & 0xFFFFFFFFFFFFF) | 0x10000000000000);
    // mantissa * 2^(exponent - 52) gives the value back
    assert_eq!((m as f64) * 2f64.powi(e as i32 - 52), 19.99);
}

#[test]
fn int_values_wrap() {
    assert_eq!(pg_value_as_int(&PgValue::Int8(1i64 << 32 | 5)), Ok(5));
    assert_eq!(pg_value_as_int(&PgValue::Int2(-3)), Ok(-3));
    assert_eq!(pg_value_as_int(&PgValue::Float4(1, 0, 0)), Err(PgValueError::NotAnInt));
    assert_eq!(pg_value_as_float(&PgValue::Int(1)), Err(PgValueError::NotAFloat));
    assert_eq!(PgValueError::NotAFloat.message(), "not an float");
    assert_eq!(PgValueError::NotAnInt.message(), "not an int");
}

#[test]
fn item_from_columns() {
    let row = vec![entry("item_id", PgValue::Int(7)), entry("quantity", PgValue::Int(2)), entry("price", PgValue::Double(3, -1, 1))];
    assert_eq!(
        cart_item_from_row(&row),
        Ok(CartItem { id: 7, quantity: 2, price: Price::Parts { mantissa: 3, exponent: -1, sign: 1 } })
    );
    let other = vec![entry("cart_id", PgValue::Int(3)), entry("quantity", PgValue::Int(2)), entry("quantity", PgValue::Int8(9))];
    assert_eq!(cart_item_from_row(&other), Ok(CartItem { id: 0, quantity: 9, price: Price::Double(0) }));
    assert_eq!(cart_item_from_row(&vec![]), Ok(CartItem { id: 0, quantity: 0, price: Price::Double(0) }));
    let bad = vec![entry("price", PgValue::Int(1))];
    assert_eq!(cart_item_from_row(&bad), Err(PgValueError::NotAFloat));
}

#[test]
fn items_one_per_row() {
    let rows = vec![
        vec![entry("item_id", PgValue::Int(1)), entry("quantity", PgValue::Int(2))],
        vec![entry("item_id", PgValue::Int4(5)), entry("price", PgValue::Float8(7, 1, 0))],
    ];
    assert_eq!(
        cart_items_from_rows(&rows),
        Ok(vec![
            CartItem { id: 1, quantity: 2, price: Price::Double(0) },
            CartItem { id: 5, quantity: 0, price: Price::Parts { mantissa: 7, exponent: 1, sign: 0 } },
        ])
    );
    let bad = vec![vec![entry("quantity", PgValue::Other)], vec![entry("price", PgValue::Int(1))]];
    assert_eq!(cart_items_from_rows(&bad), Err(PgValueError::NotAnInt));
    assert_eq!(cart_items_from_rows(&vec![]), Ok(vec![]));
}

#[test]
fn response_bodies() {
    let r = create_response(200, Some(Payload::Cart { customer_id: 1 }), Some("rows".to_string()));
    assert_eq!(r.body, Body::Json(Payload::Cart { customer_id: 1 }));
    assert_eq!(create_response(404, None, Some("not found".to_string())).body, Body::Text("not found".to_string()));
    assert_eq!(create_response(500, None, None).body, Body::Text(String::new()));
    assert!(create_response(500, None, None).headers.is_empty());
}

#[test]
fn urls() {
    assert_eq!(request_url(Some("/carts-wcrs/1?a=b")), "http://127.0.0.1:8080/carts-wcrs/1?a=b");
    assert_eq!(request_url(None), "http://127.0.0.1:8080/");
}

#[test]
fn get_cart_answers_even_without_rows() {
    let (s, step) = begin(&Route::Cart { cart_id: "10".to_string() }, &Method::Get);
    assert_eq!(s, WcState::Cart { cart_id: 10 });
    assert_eq!(
        step,
        WcStep::Query {
            sql: "\nSELECT * FROM cart.cart_items WHERE cart_id = $1;\n".to_string(),
            params: vec![PgValue::Int(10)],
        }
    );
    assert_eq!(advance(s, &WcEvent::Rows(Ok(vec![]))).1, reply(200, Body::Json(Payload::Cart { customer_id: 10 })));
    assert_eq!(advance(s, &WcEvent::Rows(Err("e".to_string()))).1, reply(404, Body::Text("not found".to_string())));
    assert_eq!(begin(&Route::Cart { cart_id: "10".to_string() }, &Method::Post).1, reply(404, Body::Text("not found".to_string())));
    assert_eq!(
        begin(&Route::Cart { cart_id: "a".to_string() }, &Method::Get).1,
        reply(400, Body::Text("invalid digit found in string".to_string()))
    );
    assert_eq!(begin(&Route::Unmatched, &Method::Get).1, WcStep::NoResponse);
}

#[test]
fn post_item_flow() {
    let (s, step) = begin(&Route::CartItems { cart_id: "2".to_string() }, &Method::Post);
    assert_eq!(step, WcStep::ReadBody);
    assert_eq!(advance(s, &WcEvent::Body(vec![])).1, reply(500, Body::Text("request body is empty".to_string())));
    let (s2, step2) = advance(s, &WcEvent::Body(b"{}".to_vec()));
    assert_eq!(step2, WcStep::ReadItem);
    assert_eq!(advance(s2, &WcEvent::Item(Err("missing field".to_string()))).1, reply(500, Body::Text("request body error".to_string())));
    let item = CartItem { id: 123, quantity: 2, price: Price::Double(1.0f64.to_bits()) };
    let (s3, step3) = advance(s2, &WcEvent::Item(Ok(item)));
    assert_eq!(
        step3,
        WcStep::Query {
            sql: "\nINSERT INTO cart.cart_items VALUES($1, $2, $3, $4);\n".to_string(),
            params: vec![PgValue::Int(2), PgValue::Int(123), PgValue::Int(2), PgValue::Float4(0x10000000000000, 0, 0)],
        }
    );
    assert_eq!(advance(s3, &WcEvent::Rows(Ok(vec![]))).1, reply(200, Body::Json(Payload::Item(item))));
    assert_eq!(advance(s3, &WcEvent::Rows(Err("dup".to_string()))).1, reply(400, Body::Text("duplicate item".to_string())));
}

#[test]
fn list_items_is_a_list() {
    let (s, _) = begin(&Route::CartItems { cart_id: "2".to_string() }, &Method::Get);
    let rows = vec![
        vec![entry("item_id", PgValue::Int(7)), entry("quantity", PgValue::Int4(6)), entry("price", PgValue::Double(3, 0, 0))],
        vec![entry("item_id", PgValue::Int(8)), entry("quantity", PgValue::Int4(1)), entry("price", PgValue::Double(1, 0, 0))],
    ];
    assert_eq!(
        advance(s, &WcEvent::Rows(Ok(rows))).1,
        reply(200, Body::Json(Payload::Items(vec![
            CartItem { id: 7, quantity: 6, price: Price::Parts { mantissa: 3, exponent: 0, sign: 0 } },
            CartItem { id: 8, quantity: 1, price: Price::Parts { mantissa: 1, exponent: 0, sign: 0 } },
        ])))
    );
    assert_eq!(advance(s, &WcEvent::Rows(Ok(vec![]))).1, reply(200, Body::Json(Payload::Items(vec![]))));
    let bad = vec![vec![entry("price", PgValue::Other)]];
    assert_eq!(
        halt_reason(s, &WcEvent::Rows(Ok(bad))),
        Some("called `Result::unwrap()` on an `Err` value: not an float".to_string())
    );
}

#[test]
fn wc_delete_routes() {
    let one = Route::CartItem { cart_id: "3".to_string(), item_id: "4".to_string() };
    let (s, step) = begin(&one, &Method::Delete);
    assert_eq!(s, WcState::Deleting);
    assert_eq!(
        step,
        WcStep::Query {
            sql: "DELETE FROM cart.cart_items WHERE cart_id = $1 AND item_id = $2 RETURNING *".to_string(),
            params: vec![PgValue::Int(3), PgValue::Int(4)],
        }
    );
    assert_eq!(advance(s, &WcEvent::Rows(Ok(vec![]))).1, reply(404, Body::Text("not found".to_string())));
    assert_eq!(advance(s, &WcEvent::Rows(Ok(vec![vec![]]))).1, reply(200, Body::Text(String::new())));
    assert_eq!(advance(s, &WcEvent::Rows(Err("down".to_string()))).1, reply(500, Body::Text("down".to_string())));
    assert_eq!(begin(&one, &Method::Get).1, reply(404, Body::Text("not found".to_string())));
    let bad = Route::CartItem { cart_id: "3".to_string(), item_id: "x".to_string() };
    assert_eq!(begin(&bad, &Method::Delete).1, reply(400, Body::Text("invalid digit found in string".to_string())));
    let (s, step) = begin(&Route::CartItems { cart_id: "3".to_string() }, &Method::Delete);
    assert_eq!(s, WcState::Deleting);
    assert_eq!(
        step,
        WcStep::Query {
            sql: "DELETE FROM cart.cart_items WHERE cart_id = $1 RETURNING *".to_string(),
            params: vec![PgValue::Int(3)],
        }
    );
}

#[test]
fn wc_patch_flow() {
    let (s, step) = begin(&Route::CartItems { cart_id: "2".to_string() }, &Method::Patch);
    assert_eq!(step, WcStep::ReadBody);
    assert_eq!(advance(s, &WcEvent::Body(vec![])).1, reply(500, Body::Text("request body is empty".to_string())));
    let (s2, step2) = advance(s, &WcEvent::Body(b"{}".to_vec()));
    assert_eq!(step2, WcStep::ReadPatch);
    assert_eq!(advance(s2, &WcEvent::Patch(Err("x".to_string()))).1, reply(500, Body::Text("request body error".to_string())));
    let patch = CartItemPatch { id: 4, quantity: Some(3), price: Some(Price::Double(1.0f64.to_bits())) };
    let (s3, step3) = advance(s2, &WcEvent::Patch(Ok(patch)));
    assert_eq!(s3, WcState::Updating { cart_id: 2, item_id: 4 });
    assert_eq!(
        step3,
        WcStep::Query {
            sql: "UPDATE cart.cart_items SET quantity = $3, price = $4 WHERE cart_id = $1 AND item_id = $2".to_string(),
            params: vec![PgValue::Int(2), PgValue::Int(4), PgValue::Int(3), PgValue::Float4(0x10000000000000, 0, 0)],
        }
    );
    assert_eq!(advance(s3, &WcEvent::Rows(Err("bad".to_string()))).1, reply(500, Body::Text("bad".to_string())));
    let (s4, step4) = advance(s3, &WcEvent::Rows(Ok(vec![])));
    assert_eq!(s4, WcState::Reading);
    let select = WcStep::Query {
        sql: "SELECT item_id, quantity, price FROM cart.cart_items WHERE cart_id = $1 AND item_id = $2".to_string(),
        params: vec![PgValue::Int(2), PgValue::Int(4)],
    };
    assert_eq!(step4, select);
    let row = vec![entry("item_id", PgValue::Int(4)), entry("quantity", PgValue::Int(3)), entry("price", PgValue::Double(1, 0, 0))];
    assert_eq!(
        advance(s4, &WcEvent::Rows(Ok(vec![row]))).1,
        reply(200, Body::Json(Payload::Item(CartItem { id: 4, quantity: 3, price: Price::Parts { mantissa: 1, exponent: 0, sign: 0 } })))
    );
    assert_eq!(advance(s4, &WcEvent::Rows(Ok(vec![]))).1, reply(404, Body::Text("not found".to_string())));
    let empty = CartItemPatch { id: 4, quantity: None, price: None };
    assert_eq!(advance(s2, &WcEvent::Patch(Ok(empty))), (WcState::Reading, select));
}

#[test]
fn wc_out_of_turn_events_stop() {
    assert_eq!(halt_reason(WcState::Finished, &WcEvent::Body(vec![])), Some("unexpected event".to_string()));
    assert_eq!(halt_reason(WcState::Items, &WcEvent::Rows(Ok(vec![]))), None);
}

#[test]
fn wc_added_items_are_listed() {
    let items = [
        CartItem { id: 5, quantity: 2, price: Price::Double(2.5f64.to_bits()) },
        CartItem { id: 6, quantity: 1, price: Price::Double(0.75f64.to_bits()) },
    ];
    let mut rows = Vec::new();
    let mut listed = Vec::new();
    for item in items.iter() {
        let (s, _) = begin(&Route::CartItems { cart_id: "9".to_string() }, &Method::Post);
        let (s, _) = advance(s, &WcEvent::Body(b"{}".to_vec()));
        let (_, step) = advance(s, &WcEvent::Item(Ok(*item)));
        let params = match step {
            WcStep::Query { params, .. } => params,
            other => panic!("unexpected step {:?}", other),
        };
        assert_eq!(params[0], PgValue::Int(9));
        rows.push(vec![entry("item_id", params[1]), entry("quantity", params[2]), entry("price", params[3])]);
        let (m, e, sg) = match params[3] {
            PgValue::Float4(m, e, sg) => (m, e, sg),
            other => panic!("unexpected price {:?}", other),
        };
        listed.push(CartItem { price: Price::Parts { mantissa: m, exponent: e, sign: sg }, ..*item });
    }
    let (s, _) = begin(&Route::CartItems { cart_id: "9".to_string() }, &Method::Get);
    assert_eq!(advance(s, &WcEvent::Rows(Ok(rows))).1, reply(200, Body::Json(Payload::Items(listed))));
}
