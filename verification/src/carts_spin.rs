//! The first cart service, under `/carts`, on the same table as `/carts-rs`.
//! It answers a missing cart with `id not found`, echoes patches without
//! applying them, and deletes without reporting whether anything was there.
use vstd::prelude::*;
use vstd::string::*;
use crate::cart::{
    cart_items_from_rows, law_rows_fault_iff_not_items, row_is_cart_item, rows_fault, spec_cart_item_from_row,
    spec_rows_fault, law_stored_item_reads_back, CartItem, CartItemPatch, DbValue,
};
use crate::carts_rs::{insert_item_sql, insert_params, select_cart_sql, select_items_sql, stored_row};
use crate::exchange::{
    answer, answer_bare, answer_json, answer_text, bare, execute, halt_unexpected, key1,
    key2, key_params1, key_params2, query, reply, run_execute, run_query, unexpected, with_json, with_text, Event,
    EventView, SqlParam, Step, StepView,
};
use crate::http::{plain, response_view, with_header, Body, BodyView, Method, Payload, PayloadView};
use crate::routing::{Route, RouteView};
use crate::text::{decimal, law_parse_decimal_roundtrip, parse_u32, spec_parse_u32};

verus! {

/// Where a `/carts` handler stands between two steps.
#[derive(PartialEq, Eq, Structural, Debug, Clone, Copy)]
pub enum CartsState {
    Finished,
    /// Waiting for the rows of the cart lookup.
    Cart { cart_id: u32 },
    /// Waiting for the rows of the item listing.
    Items { cart_id: u32 },
    /// Waiting for the body of an item to add.
    NewItem { cart_id: u32 },
    /// Waiting for the outcome of inserting `item`.
    Inserting { item: CartItem },
    /// Waiting for the body of a patch.
    PatchBody { cart_id: u32 },
    /// Waiting for the outcome of a delete.
    Deleting,
}

/// The delete of a cart's items.
pub open spec fn delete_items_sql() -> Seq<char> {
    "DELETE FROM cart.cart_items WHERE cart_id = $1 "@
}

/// The delete of one item of a cart.
pub open spec fn delete_item_sql() -> Seq<char> {
    "DELETE FROM cart.cart_items WHERE cart_id = $1 AND item_id = $2"@
}

/// The body of a `404` answer.
pub open spec fn id_not_found() -> Seq<char> {
    "id not found"@
}

/// The first step of the `/carts/:cartId` handler.
pub open spec fn spec_route_cart(id: Seq<char>, m: Method) -> (CartsState, StepView) {
    match spec_parse_u32(id) {
        Err(_) => (CartsState::Finished, bare(400)),
        Ok(c) => if m is Get {
            (CartsState::Cart { cart_id: c }, query(select_cart_sql(), key1(c)))
        } else {
            (CartsState::Finished, bare(400))
        },
    }
}

/// The first step of the `/carts/:cartId/items` handler.
pub open spec fn spec_route_cart_items(id: Seq<char>, m: Method) -> (CartsState, StepView) {
    match spec_parse_u32(id) {
        Err(e) => (CartsState::Finished, with_text(400, e.spec_message())),
        Ok(c) => match m {
            Method::Get => (CartsState::Items { cart_id: c }, query(select_items_sql(), key1(c))),
            Method::Post => (CartsState::NewItem { cart_id: c }, StepView::ReadItem),
            Method::Patch => (CartsState::PatchBody { cart_id: c }, StepView::ReadPatch),
            Method::Delete => (CartsState::Deleting, execute(delete_items_sql(), key1(c))),
            _ => (CartsState::Finished, bare(400)),
        },
    }
}

/// The first step of the `/carts/:cartId/items/:itemId` handler.
pub open spec fn spec_route_cart_item(id: Seq<char>, item: Seq<char>, m: Method) -> (CartsState, StepView) {
    match (spec_parse_u32(id), spec_parse_u32(item)) {
        (Err(e), _) => (CartsState::Finished, with_text(400, e.spec_message())),
        (Ok(_), Err(e)) => (CartsState::Finished, with_text(400, e.spec_message())),
        (Ok(c), Ok(i)) => if m is Delete {
            (CartsState::Deleting, execute(delete_item_sql(), key2(c, i)))
        } else {
            (CartsState::Finished, bare(400))
        },
    }
}

/// The first step for a routed request.
pub open spec fn spec_begin(r: RouteView, m: Method) -> (CartsState, StepView) {
    match r {
        RouteView::Cart(id) => spec_route_cart(id, m),
        RouteView::CartItems(id) => spec_route_cart_items(id, m),
        RouteView::CartItem(id, item) => spec_route_cart_item(id, item, m),
        RouteView::Unmatched => (
            CartsState::Finished,
            reply(response_view(404, seq![("content-type"@, "text/plain"@)], BodyView::Empty)),
        ),
    }
}

/// The step after the handler in state `s` is handed `e`.
pub open spec fn spec_advance(s: CartsState, e: EventView) -> (CartsState, StepView) {
    let done = CartsState::Finished;
    match (s, e) {
        (CartsState::Cart { cart_id }, EventView::Rows(Err(m))) => (done, StepView::Fail(m)),
        (CartsState::Cart { cart_id }, EventView::Rows(Ok(rows))) =>
            if rows.len() > 0 {
                (done, with_json(PayloadView::Cart(cart_id)))
            } else {
                (done, with_text(404, id_not_found()))
            },
        (CartsState::Items { cart_id }, EventView::Rows(Err(m))) => (done, StepView::Fail(m)),
        (CartsState::Items { cart_id }, EventView::Rows(Ok(rows))) =>
            if rows.len() == 0 {
                (done, with_text(404, id_not_found()))
            } else {
                match spec_rows_fault(rows) {
                    None => (done, with_json(PayloadView::Items(rows.map_values(|r: Seq<DbValue>| spec_cart_item_from_row(r))))),
                    Some(m) => (done, StepView::Halt(m)),
                }
            },
        (CartsState::NewItem { cart_id }, EventView::Item(Err(m))) => (done, with_text(400, m)),
        (CartsState::NewItem { cart_id }, EventView::Item(Ok(item))) =>
            (CartsState::Inserting { item }, execute(insert_item_sql(), insert_params(cart_id, item))),
        (CartsState::Inserting { item }, EventView::Executed(Err(_))) => (done, with_text(400, "duplicate item"@)),
        (CartsState::Inserting { item }, EventView::Executed(Ok(_))) => (done, with_json(PayloadView::Item(item))),
        (CartsState::PatchBody { cart_id }, EventView::Patch(Err(m))) => (done, with_text(400, m)),
        (CartsState::PatchBody { cart_id }, EventView::Patch(Ok(p))) =>
            (done, reply(response_view(200, Seq::empty(), BodyView::PatchEcho(cart_id, p)))),
        (CartsState::Deleting, EventView::Executed(Err(m))) => (done, with_text(500, m)),
        (CartsState::Deleting, EventView::Executed(Ok(_))) => (done, bare(200)),
        _ => (done, unexpected()),
    }
}

/// The first step of the cart route: reads the cart identifier; only `GET` is served.
pub fn handle_route_cart(cart_id: &str, m: &Method) -> (r: (CartsState, Step))
    ensures
        (r.0, r.1@) == spec_route_cart(cart_id@, *m),
{
    match parse_u32(cart_id) {
        Err(_) => (CartsState::Finished, answer_bare(400)),
        Ok(c) => match m {
            Method::Get => (
                CartsState::Cart { cart_id: c },
                run_query("SELECT * FROM cart.cart_items WHERE cart_id = $1;", key_params1(c)),
            ),
            _ => (CartsState::Finished, answer_bare(400)),
        },
    }
}

/// The first step of the items route: reads the cart identifier and dispatches on the method.
pub fn handle_route_cart_items(cart_id: &str, m: &Method) -> (r: (CartsState, Step))
    ensures
        (r.0, r.1@) == spec_route_cart_items(cart_id@, *m),
{
    match parse_u32(cart_id) {
        Err(e) => (CartsState::Finished, answer_text(400, e.message())),
        Ok(c) => match m {
            Method::Get => (
                CartsState::Items { cart_id: c },
                run_query("SELECT item_id, quantity, price FROM cart.cart_items WHERE cart_id = $1", key_params1(c)),
            ),
            Method::Post => (CartsState::NewItem { cart_id: c }, Step::ReadItem),
            Method::Patch => (CartsState::PatchBody { cart_id: c }, Step::ReadPatch),
            Method::Delete => (
                CartsState::Deleting,
                run_execute(String::from_str("DELETE FROM cart.cart_items WHERE cart_id = $1 "), key_params1(c)),
            ),
            _ => (CartsState::Finished, answer_bare(400)),
        },
    }
}

/// The first step of the single-item route: reads both identifiers; only `DELETE` is served.
pub fn handle_route_cart_item(cart_id: &str, item_id: &str, m: &Method) -> (r: (CartsState, Step))
    ensures
        (r.0, r.1@) == spec_route_cart_item(cart_id@, item_id@, *m),
{
    let c = match parse_u32(cart_id) {
        Err(e) => return (CartsState::Finished, answer_text(400, e.message())),
        Ok(c) => c,
    };
    let i = match parse_u32(item_id) {
        Err(e) => return (CartsState::Finished, answer_text(400, e.message())),
        Ok(i) => i,
    };
    match m {
        Method::Delete => (
            CartsState::Deleting,
            run_execute(
                String::from_str("DELETE FROM cart.cart_items WHERE cart_id = $1 AND item_id = $2"),
                key_params2(c, i),
            ),
        ),
        _ => (CartsState::Finished, answer_bare(400)),
    }
}

/// The first step of the handler for a routed request.
pub fn begin(route: &Route, m: &Method) -> (r: (CartsState, Step))
    ensures
        (r.0, r.1@) == spec_begin(route@, *m),
{
    match route {
        Route::Cart { cart_id } => handle_route_cart(cart_id.as_str(), m),
        Route::CartItems { cart_id } => handle_route_cart_items(cart_id.as_str(), m),
        Route::CartItem { cart_id, item_id } => handle_route_cart_item(cart_id.as_str(), item_id.as_str(), m),
        Route::Unmatched => {
            let resp = with_header(404, "content-type", "text/plain", Body::Empty);
            (CartsState::Finished, answer(resp))
        },
    }
}

fn on_rows(s: CartsState, rows: &Vec<Vec<DbValue>>) -> (r: (CartsState, Step))
    requires
        s is Cart || s is Items,
    ensures
        (r.0, r.1@) == spec_advance(s, EventView::Rows(Ok(rows@.map_values(|r: Vec<DbValue>| r@)))),
{
    let done = CartsState::Finished;
    let ghost rv = rows@.map_values(|r: Vec<DbValue>| r@);
    proof {
        assert(forall|i: int| 0 <= i < rv.len() ==> #[trigger] rv[i] == rows@[i]@);
    }
    match s {
        CartsState::Cart { cart_id } => {
            if rows.len() > 0 {
                (done, answer_json(Payload::Cart { customer_id: cart_id }))
            } else {
                (done, answer_text(404, String::from_str("id not found")))
            }
        },
        _ => {
            if rows.len() == 0 {
                (done, answer_text(404, String::from_str("id not found")))
            } else {
                match rows_fault(rows) {
                    Some(m) => (done, Step::Halt(m)),
                    None => {
                        proof {
                            law_rows_fault_iff_not_items(rv);
                            assert forall|i: int| 0 <= i < rows@.len() implies row_is_cart_item(#[trigger] rows@[i]@) by {
                                assert(rv[i] == rows@[i]@);
                            }
                        }
                        let items = cart_items_from_rows(rows);
                        proof {
                            assert(items@ =~= rv.map_values(|r: Seq<DbValue>| spec_cart_item_from_row(r)));
                        }
                        (done, answer_json(Payload::Items(items)))
                    },
                }
            }
        },
    }
}

fn step(s: CartsState, e: &Event) -> (r: (CartsState, Step))
    ensures
        (r.0, r.1@) == spec_advance(s, e@),
{
    let done = CartsState::Finished;
    match (s, e) {
        (CartsState::Cart { .. }, Event::Rows(Err(m))) => (done, Step::Fail(m.clone())),
        (CartsState::Items { .. }, Event::Rows(Err(m))) => (done, Step::Fail(m.clone())),
        (CartsState::Cart { .. }, Event::Rows(Ok(rows))) => on_rows(s, rows),
        (CartsState::Items { .. }, Event::Rows(Ok(rows))) => on_rows(s, rows),
        (CartsState::NewItem { cart_id }, Event::Item(Err(m))) => (done, answer_text(400, m.clone())),
        (CartsState::NewItem { cart_id }, Event::Item(Ok(item))) => {
            let mut params = key_params2(cart_id, item.id);
            params.push(SqlParam::Int32(item.quantity as i32));
            params.push(SqlParam::Floating64(item.price));
            proof {
                assert(params@ =~= insert_params(cart_id, *item));
            }
            (
                CartsState::Inserting { item: *item },
                run_execute(String::from_str("INSERT INTO cart.cart_items VALUES($1, $2, $3, $4);"), params),
            )
        },
        (CartsState::Inserting { item }, Event::Executed(Err(_))) =>
            (done, answer_text(400, String::from_str("duplicate item"))),
        (CartsState::Inserting { item }, Event::Executed(Ok(_))) => (done, answer_json(Payload::Item(item))),
        (CartsState::PatchBody { cart_id }, Event::Patch(Err(m))) => (done, answer_text(400, m.clone())),
        (CartsState::PatchBody { cart_id }, Event::Patch(Ok(p))) =>
            (done, answer(plain(200, Body::PatchEcho { cart_id, patch: *p }))),
        (CartsState::Deleting, Event::Executed(Err(m))) => (done, answer_text(500, m.clone())),
        (CartsState::Deleting, Event::Executed(Ok(_))) => (done, answer_bare(200)),
        _ => (done, halt_unexpected()),
    }
}

/// The next step of a handler in state `s` that is handed `e`. The inputs on
/// which the service stops (a panic) are left out: `halt_reason` names them.
pub fn advance(s: CartsState, e: &Event) -> (r: (CartsState, Step))
    requires
        !(spec_advance(s, e@).1 is Halt),
    ensures
        (r.0, r.1@) == spec_advance(s, e@),
{
    step(s, e)
}

/// The message the service stops with when a handler in state `s` is handed
/// `e`, or `None` when it goes on.
pub fn halt_reason(s: CartsState, e: &Event) -> (r: Option<String>)
    ensures
        r is Some <==> spec_advance(s, e@).1 is Halt,
        r matches Some(m) ==> spec_advance(s, e@).1 == StepView::Halt(m@),
{
    match step(s, e).1 {
        Step::Halt(m) => Some(m),
        _ => None,
    }
}

/// An upper bound on the steps a `/carts` handler still asks for.
pub open spec fn steps_left(s: CartsState) -> nat {
    match s {
        CartsState::Finished => 0,
        CartsState::NewItem { .. } => 2,
        _ => 1,
    }
}

/// Every request is answered: each step finishes the handler or brings it
/// closer to its answer.
pub proof fn law_handler_ends(s: CartsState, e: EventView)
    ensures
        spec_advance(s, e).0 == CartsState::Finished || steps_left(spec_advance(s, e).0) < steps_left(s),
{
}

/// What a listing gives back of added items: when the listing of a cart
/// reads back the rows that the inserts of added items stored, in the order
/// of the rows, the answer is exactly those items in that order.
pub proof fn law_listing_returns_added_items(cart_id: u32, items: Seq<CartItem>)
    requires
        items.len() > 0,
        forall|i: int| 0 <= i < items.len() ==> (#[trigger] items[i]).price is Double,
    ensures
        forall|i: int| 0 <= i < items.len() ==>
            spec_advance(CartsState::NewItem { cart_id }, EventView::Item(Ok(#[trigger] items[i])))
                == (CartsState::Inserting { item: items[i] }, execute(insert_item_sql(), insert_params(cart_id, items[i]))),
        spec_advance(
            CartsState::Items { cart_id },
            EventView::Rows(Ok(items.map_values(|it: CartItem| stored_row(insert_params(cart_id, it))))),
        ) == (CartsState::Finished, with_json(PayloadView::Items(items))),
{
    let rows = items.map_values(|it: CartItem| stored_row(insert_params(cart_id, it)));
    assert forall|i: int| 0 <= i < rows.len() implies row_is_cart_item(#[trigger] rows[i])
        && spec_cart_item_from_row(rows[i]) == items[i] by {
        let it = items[i];
        let bits = it.price->Double_0;
        law_stored_item_reads_back(it, bits);
        assert(rows[i] =~= seq![
            DbValue::Int32(it.id as i32),
            DbValue::Int32(it.quantity as i32),
            DbValue::Floating64(bits),
        ]);
    }
    law_rows_fault_iff_not_items(rows);
    assert(rows.map_values(|r: Seq<DbValue>| spec_cart_item_from_row(r)) =~= items);
}

/// A cart is found exactly when its lookup reads a row: a `GET` of the cart
/// looks up all of the cart's rows; at least one row answers the cart as
/// JSON, and no row answers `404 id not found`.
pub proof fn law_cart_found_iff_rows(cart_id: u32, rows: Seq<Seq<DbValue>>)
    ensures
        spec_route_cart(decimal(cart_id as nat), Method::Get)
            == (CartsState::Cart { cart_id }, query("SELECT * FROM cart.cart_items WHERE cart_id = $1;"@, seq![SqlParam::Int32(cart_id as i32)])),
        rows.len() > 0 ==> spec_advance(CartsState::Cart { cart_id }, EventView::Rows(Ok(rows)))
            == (CartsState::Finished, with_json(PayloadView::Cart(cart_id))),
        rows.len() == 0 ==> spec_advance(CartsState::Cart { cart_id }, EventView::Rows(Ok(rows)))
            == (CartsState::Finished, with_text(404, "id not found"@)),
{
    law_parse_decimal_roundtrip(cart_id);
}

/// An added item is answered by the insert's outcome: a `POST` reads the
/// item and inserts it as the row (cart, item, quantity, price); an insert
/// that succeeds, whatever count it reports, answers the item as JSON, and
/// only a failed insert answers `400 duplicate item`.
pub proof fn law_insert_outcome(cart_id: u32, item: CartItem, n: u64, m: Seq<char>)
    ensures
        spec_route_cart_items(decimal(cart_id as nat), Method::Post) == (CartsState::NewItem { cart_id }, StepView::ReadItem),
        spec_advance(CartsState::NewItem { cart_id }, EventView::Item(Ok(item))) == (
            CartsState::Inserting { item },
            execute("INSERT INTO cart.cart_items VALUES($1, $2, $3, $4);"@, seq![
                SqlParam::Int32(cart_id as i32),
                SqlParam::Int32(item.id as i32),
                SqlParam::Int32(item.quantity as i32),
                SqlParam::Floating64(item.price),
            ]),
        ),
        spec_advance(CartsState::Inserting { item }, EventView::Executed(Ok(n)))
            == (CartsState::Finished, with_json(PayloadView::Item(item))),
        spec_advance(CartsState::Inserting { item }, EventView::Executed(Err(m)))
            == (CartsState::Finished, with_text(400, "duplicate item"@)),
{
    law_parse_decimal_roundtrip(cart_id);
}

/// Adding items and then listing the cart, from the requests: a `GET` of the
/// items asks for the item, quantity and price columns of the cart's rows,
/// and when those are the rows that inserts of the items stored, the answer
/// lists exactly the added items, in order.
pub proof fn law_add_then_list_from_request(cart_id: u32, items: Seq<CartItem>)
    requires
        items.len() > 0,
        forall|i: int| 0 <= i < items.len() ==> (#[trigger] items[i]).price is Double,
    ensures
        spec_route_cart_items(decimal(cart_id as nat), Method::Get) == (
            CartsState::Items { cart_id },
            query("SELECT item_id, quantity, price FROM cart.cart_items WHERE cart_id = $1"@, seq![SqlParam::Int32(cart_id as i32)]),
        ),
        spec_advance(
            CartsState::Items { cart_id },
            EventView::Rows(Ok(items.map_values(|it: CartItem| seq![
                DbValue::Int32(it.id as i32),
                DbValue::Int32(it.quantity as i32),
                DbValue::Floating64(it.price->Double_0),
            ]))),
        ) == (CartsState::Finished, with_json(PayloadView::Items(items))),
{
    law_parse_decimal_roundtrip(cart_id);
    law_listing_returns_added_items(cart_id, items);
    let a = items.map_values(|it: CartItem| seq![
        DbValue::Int32(it.id as i32),
        DbValue::Int32(it.quantity as i32),
        DbValue::Floating64(it.price->Double_0),
    ]);
    let b = items.map_values(|it: CartItem| stored_row(insert_params(cart_id, it)));
    assert forall|i: int| 0 <= i < a.len() implies a[i] == b[i] by {
        assert(a[i] =~= b[i]);
    }
    assert(a =~= b);
}

/// Deletes, from the requests: a `DELETE` of the items removes the rows of
/// the cart, a `DELETE` of one item the rows of that cart and item; a delete
/// that runs answers `200` whatever it removed, and a failed one answers
/// `500` with the database's message.
pub proof fn law_delete_outcome(cart_id: u32, item_id: u32, n: u64, m: Seq<char>)
    ensures
        spec_route_cart_items(decimal(cart_id as nat), Method::Delete) == (
            CartsState::Deleting,
            execute("DELETE FROM cart.cart_items WHERE cart_id = $1 "@, seq![SqlParam::Int32(cart_id as i32)]),
        ),
        spec_route_cart_item(decimal(cart_id as nat), decimal(item_id as nat), Method::Delete) == (
            CartsState::Deleting,
            execute(
                "DELETE FROM cart.cart_items WHERE cart_id = $1 AND item_id = $2"@,
                seq![SqlParam::Int32(cart_id as i32), SqlParam::Int32(item_id as i32)],
            ),
        ),
        spec_advance(CartsState::Deleting, EventView::Executed(Ok(n))) == (CartsState::Finished, bare(200)),
        spec_advance(CartsState::Deleting, EventView::Executed(Err(m))) == (CartsState::Finished, with_text(500, m)),
{
    law_parse_decimal_roundtrip(cart_id);
    law_parse_decimal_roundtrip(item_id);
}

/// This service answers a patch without touching the database: a readable
/// patch is echoed back at once.
pub proof fn law_patch_not_applied(cart_id: u32, p: CartItemPatch)
    ensures
        spec_advance(CartsState::PatchBody { cart_id }, EventView::Patch(Ok(p)))
            == (CartsState::Finished, reply(response_view(200, Seq::empty(), BodyView::PatchEcho(cart_id, p)))),
{
}

} // verus!
