//! The cart service under `/carts-rs`: a cart, its items, and single items,
//! kept in the table `cart.cart_items (cart_id, item_id, quantity, price)`.
//!
//! `begin` takes the routed request; `advance` takes what the host hands back
//! for the step before. Each returns the handler's next state and next step.
use vstd::prelude::*;
use vstd::string::*;
use crate::cart::{
    cart_item_from_row, cart_items_from_rows, law_row_fault_iff_not_item, law_rows_fault_iff_not_items,
    law_stored_item_reads_back, row_fault, row_is_cart_item, rows_fault, spec_cart_item_from_row, spec_row_fault,
    spec_rows_fault, CartItem, CartItemPatch, DbValue, Price,
};
use crate::exchange::{
    answer, answer_bare, answer_json, answer_text, bare, execute, halt_unexpected, key1,
    key2, key_params1, key_params2, query, reply, run_execute, run_query, unexpected, with_json, with_text, Event,
    EventView, SqlParam, StatementView, Step, StepView,
};
use crate::http::{plain, response_view, with_header, Body, BodyView, Method, Payload, PayloadView};
use crate::routing::{Route, RouteView};
use crate::text::{decimal, decimal_u64, law_parse_decimal_roundtrip, parse_u32, spec_parse_u32};

verus! {

/// Where a `/carts-rs` handler stands between two steps.
#[derive(PartialEq, Eq, Structural, Debug, Clone, Copy)]
pub enum RsState {
    /// The request is answered.
    Finished,
    /// Waiting for the rows of the cart lookup.
    Cart { cart_id: u32 },
    /// Waiting for the rows of the item listing.
    Items { cart_id: u32 },
    /// Waiting for the body of an item to add.
    NewItem { cart_id: u32 },
    /// Waiting for the outcome of inserting `item`.
    Inserting { item: CartItem },
    /// Waiting for the body of a patch.
    PatchBody { cart_id: u32 },
    /// Waiting for the outcome of the update of an item.
    Updating { cart_id: u32, item_id: u32 },
    /// Waiting for the rows of the patched item.
    Reading,
    /// Waiting for the rows that a delete removed.
    Deleting,
}

/// The lookup of a cart's rows.
pub open spec fn select_cart_sql() -> Seq<char> {
    "SELECT * FROM cart.cart_items WHERE cart_id = $1;"@
}

/// The listing of a cart's items.
pub open spec fn select_items_sql() -> Seq<char> {
    "SELECT item_id, quantity, price FROM cart.cart_items WHERE cart_id = $1"@
}

/// The insert of an item into a cart.
pub open spec fn insert_item_sql() -> Seq<char> {
    "INSERT INTO cart.cart_items VALUES($1, $2, $3, $4);"@
}

/// The lookup of one item of a cart.
pub open spec fn select_item_sql() -> Seq<char> {
    "SELECT item_id, quantity, price FROM cart.cart_items WHERE cart_id = $1 AND item_id = $2"@
}

/// The delete of a cart's items, returning what it removed.
pub open spec fn delete_items_sql() -> Seq<char> {
    "DELETE FROM cart.cart_items WHERE cart_id = $1 RETURNING *"@
}

/// The delete of one item of a cart, returning what it removed.
pub open spec fn delete_item_sql() -> Seq<char> {
    "DELETE FROM cart.cart_items WHERE cart_id = $1 AND item_id = $2 RETURNING *"@
}

/// The assignments of a patch: one for each field that it gives, numbered
/// after the two key parameters.
pub open spec fn patch_assignments(p: CartItemPatch) -> Seq<char> {
    match (p.quantity, p.price) {
        (Some(_), Some(_)) => "quantity = $3, price = $4"@,
        (Some(_), None) => "quantity = $3"@,
        (None, Some(_)) => "price = $3"@,
        (None, None) => Seq::empty(),
    }
}

/// The parameters of a patch's update: the cart, the item, then the given fields.
pub open spec fn patch_params(cart_id: u32, p: CartItemPatch) -> Seq<SqlParam> {
    let keys = seq![SqlParam::Int32(cart_id as i32), SqlParam::Int32(p.id as i32)];
    let with_quantity = match p.quantity {
        Some(q) => keys.push(SqlParam::Int32(q as i32)),
        None => keys,
    };
    match p.price {
        Some(pr) => with_quantity.push(SqlParam::Floating64(pr)),
        None => with_quantity,
    }
}

/// The update that applies a patch.
pub open spec fn patch_update_sql(p: CartItemPatch) -> Seq<char> {
    "UPDATE cart.cart_items SET "@ + patch_assignments(p) + " WHERE cart_id = $1 AND item_id = $2"@
}

/// The parameters of the insert of `item` into cart `cart_id`.
pub open spec fn insert_params(cart_id: u32, item: CartItem) -> Seq<SqlParam> {
    seq![
        SqlParam::Int32(cart_id as i32),
        SqlParam::Int32(item.id as i32),
        SqlParam::Int32(item.quantity as i32),
        SqlParam::Floating64(item.price),
    ]
}

/// The body of a `404` answer.
pub open spec fn not_found_text() -> Seq<char> {
    "not found"@
}

/// The first step of the `/carts-rs/:cartId` handler.
pub open spec fn spec_route_cart(id: Seq<char>, m: Method) -> (RsState, StepView) {
    match spec_parse_u32(id) {
        Err(_) => (RsState::Finished, bare(400)),
        Ok(c) => if m is Get {
            (RsState::Cart { cart_id: c }, query(select_cart_sql(), key1(c)))
        } else {
            (RsState::Finished, bare(400))
        },
    }
}

/// The first step of the `/carts-rs/:cartId/items` handler.
pub open spec fn spec_route_cart_items(id: Seq<char>, m: Method) -> (RsState, StepView) {
    match spec_parse_u32(id) {
        Err(e) => (RsState::Finished, with_text(400, e.spec_message())),
        Ok(c) => match m {
            Method::Get => (RsState::Items { cart_id: c }, query(select_items_sql(), key1(c))),
            Method::Post => (RsState::NewItem { cart_id: c }, StepView::ReadItem),
            Method::Patch => (RsState::PatchBody { cart_id: c }, StepView::ReadPatch),
            Method::Delete => (RsState::Deleting, query(delete_items_sql(), key1(c))),
            _ => (RsState::Finished, bare(400)),
        },
    }
}

/// The first step of the `/carts-rs/:cartId/items/:itemId` handler.
pub open spec fn spec_route_cart_item(id: Seq<char>, item: Seq<char>, m: Method) -> (RsState, StepView) {
    match (spec_parse_u32(id), spec_parse_u32(item)) {
        (Err(e), _) => (RsState::Finished, with_text(400, e.spec_message())),
        (Ok(_), Err(e)) => (RsState::Finished, with_text(400, e.spec_message())),
        (Ok(c), Ok(i)) => if m is Delete {
            (RsState::Deleting, query(delete_item_sql(), key2(c, i)))
        } else {
            (RsState::Finished, bare(400))
        },
    }
}

/// The first step for a routed request.
pub open spec fn spec_begin(r: RouteView, m: Method) -> (RsState, StepView) {
    match r {
        RouteView::Cart(id) => spec_route_cart(id, m),
        RouteView::CartItems(id) => spec_route_cart_items(id, m),
        RouteView::CartItem(id, item) => spec_route_cart_item(id, item, m),
        RouteView::Unmatched => (
            RsState::Finished,
            reply(response_view(404, seq![("content-type"@, "text/plain"@)], BodyView::Empty)),
        ),
    }
}

/// The step after the handler in state `s` is handed `e`.
pub open spec fn spec_advance(s: RsState, e: EventView) -> (RsState, StepView) {
    let done = RsState::Finished;
    match (s, e) {
        (RsState::Cart { cart_id }, EventView::Rows(Err(m))) => (done, StepView::Fail(m)),
        (RsState::Cart { cart_id }, EventView::Rows(Ok(rows))) =>
            if rows.len() > 0 {
                (done, with_json(PayloadView::Cart(cart_id)))
            } else {
                (done, with_text(404, not_found_text()))
            },
        (RsState::Items { cart_id }, EventView::Rows(Err(m))) => (done, StepView::Fail(m)),
        (RsState::Items { cart_id }, EventView::Rows(Ok(rows))) =>
            if rows.len() == 0 {
                (done, with_text(404, not_found_text()))
            } else {
                match spec_rows_fault(rows) {
                    None => (done, with_json(PayloadView::Items(rows.map_values(|r: Seq<DbValue>| spec_cart_item_from_row(r))))),
                    Some(m) => (done, StepView::Halt(m)),
                }
            },
        (RsState::NewItem { cart_id }, EventView::Item(Err(m))) => (done, with_text(400, m)),
        (RsState::NewItem { cart_id }, EventView::Item(Ok(item))) =>
            (RsState::Inserting { item }, execute(insert_item_sql(), insert_params(cart_id, item))),
        (RsState::Inserting { item }, EventView::Executed(Err(_))) => (done, with_text(400, "duplicate item"@)),
        (RsState::Inserting { item }, EventView::Executed(Ok(_))) => (done, with_json(PayloadView::Item(item))),
        (RsState::PatchBody { cart_id }, EventView::Patch(Err(m))) => (done, with_text(400, m)),
        (RsState::PatchBody { cart_id }, EventView::Patch(Ok(p))) =>
            if p.quantity is Some || p.price is Some {
                (RsState::Updating { cart_id, item_id: p.id }, execute(patch_update_sql(p), patch_params(cart_id, p)))
            } else {
                (RsState::Reading, query(select_item_sql(), key2(cart_id, p.id)))
            },
        (RsState::Updating { cart_id, item_id }, EventView::Executed(Err(m))) => (done, with_text(500, m)),
        (RsState::Updating { cart_id, item_id }, EventView::Executed(Ok(_))) =>
            (RsState::Reading, query(select_item_sql(), key2(cart_id, item_id))),
        (RsState::Reading, EventView::Rows(Err(m))) => (done, StepView::Fail(m)),
        (RsState::Reading, EventView::Rows(Ok(rows))) =>
            if rows.len() == 0 {
                (done, with_text(404, not_found_text()))
            } else {
                match spec_row_fault(rows[0]) {
                    None => (done, with_json(PayloadView::Item(spec_cart_item_from_row(rows[0])))),
                    Some(m) => (done, StepView::Halt(m)),
                }
            },
        (RsState::Deleting, EventView::Rows(Err(m))) => (done, StepView::Fail(m)),
        (RsState::Deleting, EventView::Rows(Ok(rows))) =>
            if rows.len() == 0 {
                (done, with_text(404, not_found_text()))
            } else {
                (done, bare(200))
            },
        _ => (done, unexpected()),
    }
}

/// The assignments and parameters of the update that applies `p` to the item
/// `p.id` of cart `cart_id`: each assignment names its value by the position
/// that the value takes in the parameters.
pub fn patch_statement(cart_id: u32, p: &CartItemPatch) -> (r: (String, Vec<SqlParam>))
    ensures
        r.0@ == patch_update_sql(*p),
        r.1@ == patch_params(cart_id, *p),
{
    let mut params = key_params2(cart_id, p.id);
    let mut assignments = String::new();
    proof {
        reveal_strlit("quantity = $");
        reveal_strlit("price = $");
        reveal_strlit(", ");
        reveal_strlit("quantity = $3");
        reveal_strlit("price = $3");
        reveal_strlit("quantity = $3, price = $4");
    }
    match p.quantity {
        Some(q) => {
            params.push(SqlParam::Int32(q as i32));
            let position = decimal_u64(params.len() as u64);
            assert(position@ =~= seq!['3']) by {
                reveal_with_fuel(decimal, 2);
            }
            assignments = String::from_str("quantity = $").concat(position.as_str());
            assert(assignments@ =~= "quantity = $3"@);
        },
        None => {},
    }
    match p.price {
        Some(pr) => {
            params.push(SqlParam::Floating64(pr));
            let position = decimal_u64(params.len() as u64);
            if p.quantity.is_some() {
                assert(position@ =~= seq!['4']) by {
                    reveal_with_fuel(decimal, 2);
                }
                assignments = assignments.concat(", ");
                assignments = assignments.concat("price = $");
                assignments = assignments.concat(position.as_str());
                assert(assignments@ =~= "quantity = $3, price = $4"@);
            } else {
                assert(position@ =~= seq!['3']) by {
                    reveal_with_fuel(decimal, 2);
                }
                assignments = String::from_str("price = $").concat(position.as_str());
                assert(assignments@ =~= "price = $3"@);
            }
        },
        None => {},
    }
    assert(assignments@ =~= patch_assignments(*p));
    assert(params@ =~= patch_params(cart_id, *p));
    let sql = String::from_str("UPDATE cart.cart_items SET ").concat(assignments.as_str()).concat(
        " WHERE cart_id = $1 AND item_id = $2",
    );
    (sql, params)
}

/// The first step of the cart route: reads the cart identifier; only `GET` is served.
pub fn handle_route_cart(cart_id: &str, m: &Method) -> (r: (RsState, Step))
    ensures
        (r.0, r.1@) == spec_route_cart(cart_id@, *m),
{
    match parse_u32(cart_id) {
        Err(_) => (RsState::Finished, answer_bare(400)),
        Ok(c) => match m {
            Method::Get => (RsState::Cart { cart_id: c }, get_cart(c)),
            _ => (RsState::Finished, answer_bare(400)),
        },
    }
}

/// The lookup of a cart's rows; `get_cart_answer` answers from its outcome.
pub fn get_cart(cart_id: u32) -> (r: Step)
    ensures
        r@ == query(select_cart_sql(), key1(cart_id)),
{
    run_query("SELECT * FROM cart.cart_items WHERE cart_id = $1;", key_params1(cart_id))
}

/// The first step of the items route: reads the cart identifier and dispatches on the method.
pub fn handle_route_cart_items(cart_id: &str, m: &Method) -> (r: (RsState, Step))
    ensures
        (r.0, r.1@) == spec_route_cart_items(cart_id@, *m),
{
    match parse_u32(cart_id) {
        Err(e) => (RsState::Finished, answer_text(400, e.message())),
        Ok(c) => match m {
            Method::Get => (
                RsState::Items { cart_id: c },
                run_query("SELECT item_id, quantity, price FROM cart.cart_items WHERE cart_id = $1", key_params1(c)),
            ),
            Method::Post => (RsState::NewItem { cart_id: c }, Step::ReadItem),
            Method::Patch => (RsState::PatchBody { cart_id: c }, Step::ReadPatch),
            Method::Delete => (
                RsState::Deleting,
                run_query("DELETE FROM cart.cart_items WHERE cart_id = $1 RETURNING *", key_params1(c)),
            ),
            _ => (RsState::Finished, answer_bare(400)),
        },
    }
}

/// The first step of the single-item route: reads both identifiers; only `DELETE` is served.
pub fn handle_route_cart_item(cart_id: &str, item_id: &str, m: &Method) -> (r: (RsState, Step))
    ensures
        (r.0, r.1@) == spec_route_cart_item(cart_id@, item_id@, *m),
{
    let c = match parse_u32(cart_id) {
        Err(e) => return (RsState::Finished, answer_text(400, e.message())),
        Ok(c) => c,
    };
    let i = match parse_u32(item_id) {
        Err(e) => return (RsState::Finished, answer_text(400, e.message())),
        Ok(i) => i,
    };
    match m {
        Method::Delete => (
            RsState::Deleting,
            run_query(
                "DELETE FROM cart.cart_items WHERE cart_id = $1 AND item_id = $2 RETURNING *",
                key_params2(c, i),
            ),
        ),
        _ => (RsState::Finished, answer_bare(400)),
    }
}

/// The first step of the handler for a routed request.
pub fn begin(route: &Route, m: &Method) -> (r: (RsState, Step))
    ensures
        (r.0, r.1@) == spec_begin(route@, *m),
{
    match route {
        Route::Cart { cart_id } => handle_route_cart(cart_id.as_str(), m),
        Route::CartItems { cart_id } => handle_route_cart_items(cart_id.as_str(), m),
        Route::CartItem { cart_id, item_id } => handle_route_cart_item(cart_id.as_str(), item_id.as_str(), m),
        Route::Unmatched => {
            let resp = with_header(404, "content-type", "text/plain", Body::Empty);
            (RsState::Finished, answer(resp))
        },
    }
}

/// The answer to the lookup of cart `cart_id`, from the lookup's outcome: the
/// cart as JSON when it has rows, `404 not found` when it has none, and the
/// database's error as the handler's error.
pub fn get_cart_answer(cart_id: u32, rows: &Result<Vec<Vec<DbValue>>, String>) -> (r: Step)
    ensures
        r@ == match rows {
            Ok(rs) => if rs.len() > 0 {
                with_json(PayloadView::Cart(cart_id))
            } else {
                with_text(404, not_found_text())
            },
            Err(m) => StepView::Fail(m@),
        },
{
    match rows {
        Err(m) => Step::Fail(m.clone()),
        Ok(rs) => {
            if rs.len() > 0 {
                answer_json(Payload::Cart { customer_id: cart_id })
            } else {
                answer_text(404, String::from_str("not found"))
            }
        },
    }
}

fn on_cart(cart_id: u32, e: &Event) -> (r: (RsState, Step))
    ensures
        (r.0, r.1@) == spec_advance(RsState::Cart { cart_id }, e@),
{
    let done = RsState::Finished;
    match e {
        Event::Rows(rows) => (done, get_cart_answer(cart_id, rows)),
        _ => (done, halt_unexpected()),
    }
}

fn on_items(cart_id: u32, e: &Event) -> (r: (RsState, Step))
    ensures
        (r.0, r.1@) == spec_advance(RsState::Items { cart_id }, e@),
{
    let done = RsState::Finished;
    match e {
        Event::Rows(Err(m)) => (done, Step::Fail(m.clone())),
        Event::Rows(Ok(rows)) => {
            let ghost rv = rows@.map_values(|r: Vec<DbValue>| r@);
            if rows.len() == 0 {
                (done, answer_text(404, String::from_str("not found")))
            } else {
                match rows_fault(rows) {
                    Some(m) => (done, Step::Halt(m)),
                    None => {
                        proof {
                            law_rows_fault_iff_not_items(rv);
                            assert forall|i: int| 0 <= i < rows@.len() implies row_is_cart_item(#[trigger] rows@[i]@) by {
                                assert(rv[i] == rows@[i]@);
                            }
                        }
                        let items = cart_items_from_rows(rows);
                        proof {
                            assert(items@ =~= rv.map_values(|r: Seq<DbValue>| spec_cart_item_from_row(r)));
                        }
                        (done, answer_json(Payload::Items(items)))
                    },
                }
            }
        },
        _ => (done, halt_unexpected()),
    }
}

fn on_new_item(cart_id: u32, e: &Event) -> (r: (RsState, Step))
    ensures
        (r.0, r.1@) == spec_advance(RsState::NewItem { cart_id }, e@),
{
    let done = RsState::Finished;
    match e {
        Event::Item(Err(m)) => (done, answer_text(400, m.clone())),
        Event::Item(Ok(item)) => {
            let mut params = key_params2(cart_id, item.id);
            params.push(SqlParam::Int32(item.quantity as i32));
            params.push(SqlParam::Floating64(item.price));
            proof {
                assert(params@ =~= insert_params(cart_id, *item));
            }
            (
                RsState::Inserting { item: *item },
                run_execute(String::from_str("INSERT INTO cart.cart_items VALUES($1, $2, $3, $4);"), params),
            )
        },
        _ => (done, halt_unexpected()),
    }
}

fn on_inserting(item: CartItem, e: &Event) -> (r: (RsState, Step))
    ensures
        (r.0, r.1@) == spec_advance(RsState::Inserting { item }, e@),
{
    let done = RsState::Finished;
    match e {
        Event::Executed(Err(_)) => (done, answer_text(400, String::from_str("duplicate item"))),
        Event::Executed(Ok(_)) => (done, answer_json(Payload::Item(item))),
        _ => (done, halt_unexpected()),
    }
}

fn on_patch_body(cart_id: u32, e: &Event) -> (r: (RsState, Step))
    ensures
        (r.0, r.1@) == spec_advance(RsState::PatchBody { cart_id }, e@),
{
    let done = RsState::Finished;
    match e {
        Event::Patch(Err(m)) => (done, answer_text(400, m.clone())),
        Event::Patch(Ok(p)) => {
            if p.quantity.is_some() || p.price.is_some() {
                let (sql, params) = patch_statement(cart_id, p);
                (RsState::Updating { cart_id, item_id: p.id }, run_execute(sql, params))
            } else {
                (RsState::Reading, select_item(cart_id, p.id))
            }
        },
        _ => (done, halt_unexpected()),
    }
}

fn select_item(cart_id: u32, item_id: u32) -> (r: Step)
    ensures
        r@ == query(select_item_sql(), key2(cart_id, item_id)),
{
    run_query(
        "SELECT item_id, quantity, price FROM cart.cart_items WHERE cart_id = $1 AND item_id = $2",
        key_params2(cart_id, item_id),
    )
}

fn on_updating(cart_id: u32, item_id: u32, e: &Event) -> (r: (RsState, Step))
    ensures
        (r.0, r.1@) == spec_advance(RsState::Updating { cart_id, item_id }, e@),
{
    let done = RsState::Finished;
    match e {
        Event::Executed(Err(m)) => (done, answer_text(500, m.clone())),
        Event::Executed(Ok(_)) => (RsState::Reading, select_item(cart_id, item_id)),
        _ => (done, halt_unexpected()),
    }
}

fn on_reading(e: &Event) -> (r: (RsState, Step))
    ensures
        (r.0, r.1@) == spec_advance(RsState::Reading, e@),
{
    let done = RsState::Finished;
    match e {
        Event::Rows(Err(m)) => (done, Step::Fail(m.clone())),
        Event::Rows(Ok(rows)) => {
            let ghost rv = rows@.map_values(|r: Vec<DbValue>| r@);
            if rows.len() == 0 {
                (done, answer_text(404, String::from_str("not found")))
            } else {
                assert(rv[0] == rows@[0]@);
                match row_fault(&rows[0]) {
                    Some(m) => (done, Step::Halt(m)),
                    None => {
                        proof {
                            law_row_fault_iff_not_item(rows@[0]@);
                        }
                        let item = cart_item_from_row(&rows[0]);
                        (done, answer_json(Payload::Item(item)))
                    },
                }
            }
        },
        _ => (done, halt_unexpected()),
    }
}

fn on_deleting(e: &Event) -> (r: (RsState, Step))
    ensures
        (r.0, r.1@) == spec_advance(RsState::Deleting, e@),
{
    let done = RsState::Finished;
    match e {
        Event::Rows(Err(m)) => (done, Step::Fail(m.clone())),
        Event::Rows(Ok(rows)) => {
            if rows.len() == 0 {
                (done, answer_text(404, String::from_str("not found")))
            } else {
                (done, answer_bare(200))
            }
        },
        _ => (done, halt_unexpected()),
    }
}

fn step(s: RsState, e: &Event) -> (r: (RsState, Step))
    ensures
        (r.0, r.1@) == spec_advance(s, e@),
{
    match s {
        RsState::Finished => (RsState::Finished, halt_unexpected()),
        RsState::Cart { cart_id } => on_cart(cart_id, e),
        RsState::Items { cart_id } => on_items(cart_id, e),
        RsState::NewItem { cart_id } => on_new_item(cart_id, e),
        RsState::Inserting { item } => on_inserting(item, e),
        RsState::PatchBody { cart_id } => on_patch_body(cart_id, e),
        RsState::Updating { cart_id, item_id } => on_updating(cart_id, item_id, e),
        RsState::Reading => on_reading(e),
        RsState::Deleting => on_deleting(e),
    }
}

/// The next step of a handler in state `s` that is handed `e`. The inputs on
/// which the service stops (a panic) are left out: `halt_reason` names them.
pub fn advance(s: RsState, e: &Event) -> (r: (RsState, Step))
    requires
        !(spec_advance(s, e@).1 is Halt),
    ensures
        (r.0, r.1@) == spec_advance(s, e@),
{
    step(s, e)
}

/// The message the service stops with when a handler in state `s` is handed
/// `e`, or `None` when it goes on.
pub fn halt_reason(s: RsState, e: &Event) -> (r: Option<String>)
    ensures
        r is Some <==> spec_advance(s, e@).1 is Halt,
        r matches Some(m) ==> spec_advance(s, e@).1 == StepView::Halt(m@),
{
    match step(s, e).1 {
        Step::Halt(m) => Some(m),
        _ => None,
    }
}

/// In a patch's update, every assignment names its value by that value's
/// position among the parameters: the cart and item are `$1` and `$2`, a given
/// quantity is `$3`, and a given price is the last parameter, named by the
/// number of parameters.
pub proof fn law_patch_placeholders_match_params(cart_id: u32, p: CartItemPatch)
    ensures
        ({
            let params = patch_params(cart_id, p);
            let sets = patch_assignments(p);
            &&& params.len() == 2 + (if p.quantity is Some { 1int } else { 0 }) + (if p.price is Some { 1int } else { 0 })
            &&& params[0] == SqlParam::Int32(cart_id as i32)
            &&& params[1] == SqlParam::Int32(p.id as i32)
            &&& p.quantity matches Some(q) ==> {
                let named = "quantity = $"@ + decimal(3);
                params[2] == SqlParam::Int32(q as i32) && sets.take(named.len() as int) == named
            }
            &&& p.price matches Some(pr) ==> {
                let named = "price = $"@ + decimal(params.len());
                params.last() == SqlParam::Floating64(pr) && sets.skip(sets.len() - named.len()) == named
            }
            &&& (p.quantity is None && p.price is None) <==> sets.len() == 0
        }),
{
    reveal_with_fuel(decimal, 2);
    reveal_strlit("quantity = $");
    reveal_strlit("price = $");
    reveal_strlit("quantity = $3");
    reveal_strlit("price = $3");
    reveal_strlit("quantity = $3, price = $4");
    let params = patch_params(cart_id, p);
    let sets = patch_assignments(p);
    if p.quantity is Some {
        assert(sets.take(13) =~= "quantity = $"@ + decimal(3));
    }
    if p.price is Some {
        let named = "price = $"@ + decimal(params.len());
        assert(sets.skip(sets.len() - named.len()) =~= named);
    }
}

/// A patch that gives no field runs no update: it only reads the item back.
pub proof fn law_empty_patch_only_reads(cart_id: u32, p: CartItemPatch)
    requires
        p.quantity is None,
        p.price is None,
    ensures
        spec_advance(RsState::PatchBody { cart_id }, EventView::Patch(Ok(p)))
            == (RsState::Reading, query(select_item_sql(), key2(cart_id, p.id))),
{
}

/// The value a table column holds after a statement stored the parameter `p`.
pub open spec fn stored(p: SqlParam) -> DbValue {
    match p {
        SqlParam::Int32(x) => DbValue::Int32(x),
        SqlParam::Floating64(Price::Double(b)) => DbValue::Floating64(b),
        SqlParam::Floating64(Price::Single(b)) => DbValue::Floating32(b),
        SqlParam::Floating64(_) => DbValue::Unsupported,
    }
}

/// The row that an insert with parameters `params` stores, as a listing reads
/// it back: its item, quantity and price columns.
pub open spec fn stored_row(params: Seq<SqlParam>) -> Seq<DbValue> {
    seq![stored(params[1]), stored(params[2]), stored(params[3])]
}

/// What a listing gives back of added items: each item added to a cart is
/// inserted with its cart, identifier, quantity and price, and when the
/// listing of that cart then reads back the rows those inserts stored, in
/// any number and in the order of the rows, the answer is exactly those
/// items in that order.
pub proof fn law_listing_returns_added_items(cart_id: u32, items: Seq<CartItem>)
    requires
        items.len() > 0,
        forall|i: int| 0 <= i < items.len() ==> (#[trigger] items[i]).price is Double,
    ensures
        forall|i: int| 0 <= i < items.len() ==>
            spec_advance(RsState::NewItem { cart_id }, EventView::Item(Ok(#[trigger] items[i])))
                == (RsState::Inserting { item: items[i] }, execute(insert_item_sql(), insert_params(cart_id, items[i]))),
        spec_advance(
            RsState::Items { cart_id },
            EventView::Rows(Ok(items.map_values(|it: CartItem| stored_row(insert_params(cart_id, it))))),
        ) == (RsState::Finished, with_json(PayloadView::Items(items))),
{
    let rows = items.map_values(|it: CartItem| stored_row(insert_params(cart_id, it)));
    assert forall|i: int| 0 <= i < rows.len() implies row_is_cart_item(#[trigger] rows[i])
        && spec_cart_item_from_row(rows[i]) == items[i] by {
        let it = items[i];
        let bits = it.price->Double_0;
        law_stored_item_reads_back(it, bits);
        assert(rows[i] =~= seq![
            DbValue::Int32(it.id as i32),
            DbValue::Int32(it.quantity as i32),
            DbValue::Floating64(bits),
        ]);
    }
    law_rows_fault_iff_not_items(rows);
    assert(rows.map_values(|r: Seq<DbValue>| spec_cart_item_from_row(r)) =~= items);
}

/// What the service answers once rows are gone: a delete of a cart's items
/// removes the rows of that cart, and a delete of one item the rows of that
/// cart and item; a later listing of the cart that reads no rows answers
/// `404 not found`, and a later delete that removes no row answers
/// `404 not found`.
pub proof fn law_answers_after_delete(cart_id: u32, item_id: u32, rows: Seq<Seq<DbValue>>)
    ensures
        spec_route_cart_items(decimal(cart_id as nat), Method::Delete) == (
            RsState::Deleting,
            query("DELETE FROM cart.cart_items WHERE cart_id = $1 RETURNING *"@, seq![SqlParam::Int32(cart_id as i32)]),
        ),
        spec_route_cart_item(decimal(cart_id as nat), decimal(item_id as nat), Method::Delete) == (
            RsState::Deleting,
            query(
                "DELETE FROM cart.cart_items WHERE cart_id = $1 AND item_id = $2 RETURNING *"@,
                seq![SqlParam::Int32(cart_id as i32), SqlParam::Int32(item_id as i32)],
            ),
        ),
        spec_advance(RsState::Items { cart_id }, EventView::Rows(Ok(Seq::empty())))
            == (RsState::Finished, with_text(404, "not found"@)),
        spec_advance(RsState::Deleting, EventView::Rows(Ok(Seq::empty())))
            == (RsState::Finished, with_text(404, "not found"@)),
        rows.len() > 0 ==> spec_advance(RsState::Deleting, EventView::Rows(Ok(rows))) == (RsState::Finished, bare(200)),
{
    law_parse_decimal_roundtrip(cart_id);
    law_parse_decimal_roundtrip(item_id);
}

/// A cart is found exactly when its lookup reads a row: a `GET` of the cart
/// looks up all of the cart's rows; at least one row answers the cart as
/// JSON, and no row answers `404 not found`.
pub proof fn law_cart_found_iff_rows(cart_id: u32, rows: Seq<Seq<DbValue>>)
    ensures
        spec_route_cart(decimal(cart_id as nat), Method::Get)
            == (RsState::Cart { cart_id }, query("SELECT * FROM cart.cart_items WHERE cart_id = $1;"@, seq![SqlParam::Int32(cart_id as i32)])),
        rows.len() > 0 ==> spec_advance(RsState::Cart { cart_id }, EventView::Rows(Ok(rows)))
            == (RsState::Finished, with_json(PayloadView::Cart(cart_id))),
        rows.len() == 0 ==> spec_advance(RsState::Cart { cart_id }, EventView::Rows(Ok(rows)))
            == (RsState::Finished, with_text(404, "not found"@)),
{
    law_parse_decimal_roundtrip(cart_id);
}

/// An added item is answered by the insert's outcome: a `POST` reads the
/// item and inserts it as the row (cart, item, quantity, price); an insert
/// that succeeds, whatever count it reports, answers the item as JSON, and
/// only a failed insert answers `400 duplicate item`.
pub proof fn law_insert_outcome(cart_id: u32, item: CartItem, n: u64, m: Seq<char>)
    ensures
        spec_route_cart_items(decimal(cart_id as nat), Method::Post) == (RsState::NewItem { cart_id }, StepView::ReadItem),
        spec_advance(RsState::NewItem { cart_id }, EventView::Item(Ok(item))) == (
            RsState::Inserting { item },
            execute("INSERT INTO cart.cart_items VALUES($1, $2, $3, $4);"@, seq![
                SqlParam::Int32(cart_id as i32),
                SqlParam::Int32(item.id as i32),
                SqlParam::Int32(item.quantity as i32),
                SqlParam::Floating64(item.price),
            ]),
        ),
        spec_advance(RsState::Inserting { item }, EventView::Executed(Ok(n)))
            == (RsState::Finished, with_json(PayloadView::Item(item))),
        spec_advance(RsState::Inserting { item }, EventView::Executed(Err(m)))
            == (RsState::Finished, with_text(400, "duplicate item"@)),
{
    law_parse_decimal_roundtrip(cart_id);
}

/// Adding items and then listing the cart, from the requests: a `GET` of the
/// items asks for the item, quantity and price columns of the cart's rows,
/// and when those are the rows that inserts of the items stored, the answer
/// lists exactly the added items, in order.
pub proof fn law_add_then_list_from_request(cart_id: u32, items: Seq<CartItem>)
    requires
        items.len() > 0,
        forall|i: int| 0 <= i < items.len() ==> (#[trigger] items[i]).price is Double,
    ensures
        spec_route_cart_items(decimal(cart_id as nat), Method::Get) == (
            RsState::Items { cart_id },
            query("SELECT item_id, quantity, price FROM cart.cart_items WHERE cart_id = $1"@, seq![SqlParam::Int32(cart_id as i32)]),
        ),
        spec_advance(
            RsState::Items { cart_id },
            EventView::Rows(Ok(items.map_values(|it: CartItem| seq![
                DbValue::Int32(it.id as i32),
                DbValue::Int32(it.quantity as i32),
                DbValue::Floating64(it.price->Double_0),
            ]))),
        ) == (RsState::Finished, with_json(PayloadView::Items(items))),
{
    law_parse_decimal_roundtrip(cart_id);
    law_listing_returns_added_items(cart_id, items);
    let a = items.map_values(|it: CartItem| seq![
        DbValue::Int32(it.id as i32),
        DbValue::Int32(it.quantity as i32),
        DbValue::Floating64(it.price->Double_0),
    ]);
    let b = items.map_values(|it: CartItem| stored_row(insert_params(cart_id, it)));
    assert forall|i: int| 0 <= i < a.len() implies a[i] == b[i] by {
        assert(a[i] =~= b[i]);
    }
    assert(a =~= b);
}

/// An upper bound on the steps a `/carts-rs` handler still asks for.
pub open spec fn steps_left(s: RsState) -> nat {
    match s {
        RsState::Finished => 0,
        RsState::Cart { .. } => 1,
        RsState::Items { .. } => 1,
        RsState::NewItem { .. } => 2,
        RsState::Inserting { .. } => 1,
        RsState::PatchBody { .. } => 3,
        RsState::Updating { .. } => 2,
        RsState::Reading => 1,
        RsState::Deleting => 1,
    }
}

/// Every request is answered: each step finishes the handler or brings it
/// closer to its answer, so a handler asks for at most three steps after its
/// first.
pub proof fn law_handler_ends(s: RsState, e: EventView)
    ensures
        spec_advance(s, e).0 == RsState::Finished || steps_left(spec_advance(s, e).0) < steps_left(s),
{
}

} // verus!
