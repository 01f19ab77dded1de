//! The cart service on wasmCloud, under `/carts-wcrs`, with the same routes
//! as the other cart services, on the wasmCloud Postgres interface: queries
//! only, rows as named columns, and floating-point values as
//! (mantissa, exponent, sign) triples.
use vstd::prelude::*;
use vstd::string::*;
use crate::cart::{CartItem, CartItemPatch, Price};
use crate::http::{plain, response_view, Body, BodyView, Method, Payload, PayloadView, Response, ResponseView};
use crate::routing::{Route, RouteView};
use crate::carts_rs::{delete_item_sql, delete_items_sql, patch_statement, patch_update_sql, select_item_sql};
use crate::text::{decimal, law_parse_decimal_roundtrip, parse_u32, spec_parse_u32, unwrap_err_panic, unwrap_err_panic_text};

verus! {

/// A value of the wasmCloud Postgres interface, as far as the service reads or
/// writes it; every other kind of value is `Other`.
#[derive(PartialEq, Eq, Structural, Debug, Clone, Copy)]
pub enum PgValue {
    Int(i32),
    Int2(i16),
    Int4(i32),
    Int8(i64),
    BigInt(i64),
    Float4(u64, i16, i8),
    Float8(u64, i16, i8),
    Double(u64, i16, i8),
    Other,
}

/// A database value that is not of the kind asked for.
#[derive(PartialEq, Eq, Structural, Debug, Clone, Copy)]
pub enum PgValueError {
    NotAnInt,
    NotAFloat,
}

impl PgValueError {
    /// The message of the error, as this service words it.
    pub open spec fn spec_message(self) -> Seq<char> {
        match self {
            PgValueError::NotAnInt => "not an int"@,
            PgValueError::NotAFloat => "not an float"@,
        }
    }

    pub fn message(&self) -> (r: String)
        ensures
            r@ == self.spec_message(),
    {
        match self {
            PgValueError::NotAnInt => String::from_str("not an int"),
            PgValueError::NotAFloat => String::from_str("not an float"),
        }
    }
}

/// A column of a result row: its name and value.
#[derive(PartialEq, Eq, Debug, Clone)]
pub struct ResultRowEntry {
    pub column_name: String,
    pub value: PgValue,
}

/// An integer value as an `i32`, wrapped to 32 bits as Rust's `as` does.
pub open spec fn spec_pg_value_as_int(v: PgValue) -> Result<i32, PgValueError> {
    match v {
        PgValue::Int(x) => Ok(x),
        PgValue::Int2(x) => Ok(x as i32),
        PgValue::Int4(x) => Ok(x),
        PgValue::Int8(x) => Ok(x as i32),
        PgValue::BigInt(x) => Ok(x as i32),
        _ => Err(PgValueError::NotAnInt),
    }
}

/// A floating-point value as the triple it came in.
pub open spec fn spec_pg_value_as_float(v: PgValue) -> Result<Price, PgValueError> {
    match v {
        PgValue::Float4(m, e, s) => Ok(Price::Parts { mantissa: m, exponent: e, sign: s }),
        PgValue::Float8(m, e, s) => Ok(Price::Parts { mantissa: m, exponent: e, sign: s }),
        PgValue::Double(m, e, s) => Ok(Price::Parts { mantissa: m, exponent: e, sign: s }),
        _ => Err(PgValueError::NotAFloat),
    }
}

/// Reads an integer value as an `i32`, wrapped to 32 bits.
pub fn pg_value_as_int(v: &PgValue) -> (r: Result<i32, PgValueError>)
    ensures
        r == spec_pg_value_as_int(*v),
{
    match v {
        PgValue::Int(x) => Ok(*x),
        PgValue::Int2(x) => Ok(*x as i32),
        PgValue::Int4(x) => Ok(*x),
        PgValue::Int8(x) => Ok(*x as i32),
        PgValue::BigInt(x) => Ok(*x as i32),
        _ => Err(PgValueError::NotAnInt),
    }
}

/// Reads a floating-point value as the triple it came in.
pub fn pg_value_as_float(v: &PgValue) -> (r: Result<Price, PgValueError>)
    ensures
        r == spec_pg_value_as_float(*v),
{
    match v {
        PgValue::Float4(m, e, s) => Ok(Price::Parts { mantissa: *m, exponent: *e, sign: *s }),
        PgValue::Float8(m, e, s) => Ok(Price::Parts { mantissa: *m, exponent: *e, sign: *s }),
        PgValue::Double(m, e, s) => Ok(Price::Parts { mantissa: *m, exponent: *e, sign: *s }),
        _ => Err(PgValueError::NotAFloat),
    }
}

/// The (mantissa, exponent, sign) triple of the `f64` with the given bits: the
/// sign bit, the unbiased exponent, and the fraction with the hidden bit set
/// unless the exponent field is zero.
pub open spec fn spec_decompose(bits: u64) -> (u64, i16, i8) {
    let sign: i8 = if (bits >> 63u64) & 1u64 == 1u64 { 1 } else { 0 };
    let exponent: i16 = (((bits >> 52u64) & 0x7FFu64) - 1023) as i16;
    let mantissa: u64 = if exponent == -1023 {
        bits & 0xFFFFFFFFFFFFFu64
    } else {
        (bits & 0xFFFFFFFFFFFFFu64) | 0x10000000000000u64
    };
    (mantissa, exponent, sign)
}

/// Splits the bits of an `f64` into its (mantissa, exponent, sign) triple.
pub fn decompose_f64_custom(bits: u64) -> (r: (u64, i16, i8))
    ensures
        r == spec_decompose(bits),
{
    let sign: i8 = if (bits >> 63u64) & 1u64 == 1u64 { 1 } else { 0 };
    let field: u64 = (bits >> 52u64) & 0x7FFu64;
    assert(field < 2048) by (bit_vector)
        requires
            field == (bits >> 52u64) & 0x7FFu64,
    ;
    let exponent: i16 = field as i16 - 1023;
    let mantissa: u64 = if exponent == -1023 {
        bits & 0xFFFFFFFFFFFFFu64
    } else {
        bits & 0xFFFFFFFFFFFFFu64 | 0x10000000000000u64
    };
    (mantissa, exponent, sign)
}

/// The triple keeps all of the value's bits: the sign, the exponent field and
/// the fraction can be put back together into the bits it came from.
pub proof fn law_decompose_keeps_bits(bits: u64)
    ensures
        ({
            let (m, e, s) = spec_decompose(bits);
            &&& -1023 <= e <= 1024
            &&& 0 <= s <= 1
            &&& m < 0x20000000000000u64
            &&& bits == ((s as u64) << 63u64) | (((e + 1023) as u64) << 52u64) | (m & 0xFFFFFFFFFFFFFu64)
        }),
{
    let s: u64 = (bits >> 63u64) & 1u64;
    let f: u64 = (bits >> 52u64) & 0x7FFu64;
    let frac: u64 = bits & 0xFFFFFFFFFFFFFu64;
    assert(s <= 1 && f < 2048 && frac < 0x10000000000000u64) by (bit_vector)
        requires
            s == (bits >> 63u64) & 1u64,
            f == (bits >> 52u64) & 0x7FFu64,
            frac == bits & 0xFFFFFFFFFFFFFu64,
    ;
    assert(bits == (s << 63u64) | (f << 52u64) | frac) by (bit_vector)
        requires
            s == (bits >> 63u64) & 1u64,
            f == (bits >> 52u64) & 0x7FFu64,
            frac == bits & 0xFFFFFFFFFFFFFu64,
    ;
    assert((frac | 0x10000000000000u64) & 0xFFFFFFFFFFFFFu64 == frac) by (bit_vector)
        requires
            frac == bits & 0xFFFFFFFFFFFFFu64,
    ;
    assert((frac | 0x10000000000000u64) < 0x20000000000000u64) by (bit_vector)
        requires
            frac == bits & 0xFFFFFFFFFFFFFu64,
    ;
    assert(frac & 0xFFFFFFFFFFFFFu64 == frac) by (bit_vector)
        requires
            frac == bits & 0xFFFFFFFFFFFFFu64,
    ;
    let (m, e, sg) = spec_decompose(bits);
    assert(e == f - 1023);
    assert((e + 1023) as u64 == f);
    assert(sg as u64 == s);
}

/// The item of zeros that reading a row starts from.
pub open spec fn default_item() -> CartItem {
    CartItem::spec_default()
}

/// The item after reading one column: `item_id`, `quantity` and `price` set
/// that field; a value that is not of the field's kind stops the reading.
pub open spec fn apply_column(acc: Result<CartItem, PgValueError>, name: Seq<char>, v: PgValue) -> Result<CartItem, PgValueError> {
    match acc {
        Err(e) => Err(e),
        Ok(item) => if name == "item_id"@ {
            match spec_pg_value_as_int(v) {
                Ok(x) => Ok(CartItem { id: x as u32, ..item }),
                Err(e) => Err(e),
            }
        } else if name == "quantity"@ {
            match spec_pg_value_as_int(v) {
                Ok(x) => Ok(CartItem { quantity: x as u32, ..item }),
                Err(e) => Err(e),
            }
        } else if name == "price"@ {
            match spec_pg_value_as_float(v) {
                Ok(p) => Ok(CartItem { price: p, ..item }),
                Err(e) => Err(e),
            }
        } else {
            Ok(item)
        },
    }
}

/// The item after reading the columns of a row in order.
pub open spec fn apply_row(acc: Result<CartItem, PgValueError>, row: Seq<(Seq<char>, PgValue)>) -> Result<CartItem, PgValueError>
    decreases row.len(),
{
    if row.len() == 0 {
        acc
    } else {
        apply_column(apply_row(acc, row.drop_last()), row.last().0, row.last().1)
    }
}

/// The cart item of a row: from the item of zeros, each `item_id`,
/// `quantity` and `price` column sets that field (the last such column wins);
/// the first column whose value is not of its field's kind gives the error.
pub open spec fn spec_row_item(row: Seq<(Seq<char>, PgValue)>) -> Result<CartItem, PgValueError> {
    apply_row(Ok(default_item()), row)
}

/// The cart items of the rows, one per row and in order, or the error of the
/// first row that does not read as an item.
pub open spec fn spec_row_items(rows: Seq<Seq<(Seq<char>, PgValue)>>) -> Result<Seq<CartItem>, PgValueError>
    decreases rows.len(),
{
    if rows.len() == 0 {
        Ok(Seq::empty())
    } else {
        match spec_row_items(rows.drop_last()) {
            Err(e) => Err(e),
            Ok(items) => match spec_row_item(rows.last()) {
                Ok(item) => Ok(items.push(item)),
                Err(e) => Err(e),
            },
        }
    }
}

/// A row as column names and values.
pub open spec fn row_view(row: Seq<ResultRowEntry>) -> Seq<(Seq<char>, PgValue)> {
    row.map_values(|e: ResultRowEntry| (e.column_name@, e.value))
}

/// The rows as column names and values.
pub open spec fn rows_view(rows: Seq<Vec<ResultRowEntry>>) -> Seq<Seq<(Seq<char>, PgValue)>> {
    rows.map_values(|r: Vec<ResultRowEntry>| row_view(r@))
}

fn apply_column_exec(
    acc: Result<CartItem, PgValueError>,
    entry: &ResultRowEntry,
    item_id: &String,
    quantity: &String,
    price: &String,
) -> (r: Result<CartItem, PgValueError>)
    requires
        item_id@ == "item_id"@,
        quantity@ == "quantity"@,
        price@ == "price"@,
    ensures
        r == apply_column(acc, entry.column_name@, entry.value),
{
    match acc {
        Err(e) => Err(e),
        Ok(item) => {
            let mut item = item;
            if entry.column_name == *item_id {
                match pg_value_as_int(&entry.value) {
                    Ok(x) => item.set_id(x),
                    Err(e) => return Err(e),
                }
            } else if entry.column_name == *quantity {
                match pg_value_as_int(&entry.value) {
                    Ok(x) => item.set_quantity(x),
                    Err(e) => return Err(e),
                }
            } else if entry.column_name == *price {
                match pg_value_as_float(&entry.value) {
                    Ok(p) => item.set_price(p),
                    Err(e) => return Err(e),
                }
            }
            Ok(item)
        },
    }
}

/// The cart item described by one row's columns.
pub fn cart_item_from_row(row: &Vec<ResultRowEntry>) -> (r: Result<CartItem, PgValueError>)
    ensures
        r == spec_row_item(row_view(row@)),
{
    let ghost row_v = row_view(row@);
    let item_id = String::from_str("item_id");
    let quantity = String::from_str("quantity");
    let price = String::from_str("price");
    let mut acc: Result<CartItem, PgValueError> = Ok(CartItem::default());
    let mut j: usize = 0;
    while j < row.len()
        invariant
            j <= row@.len(),
            row_v == row_view(row@),
            item_id@ == "item_id"@,
            quantity@ == "quantity"@,
            price@ == "price"@,
            apply_row(Ok(default_item()), row_v.take(j as int)) == acc,
        decreases row@.len() - j,
    {
        let entry = &row[j];
        assert(row_v[j as int] == (entry.column_name@, entry.value));
        assert(row_v.take(j + 1).drop_last() =~= row_v.take(j as int));
        acc = apply_column_exec(acc, entry, &item_id, &quantity, &price);
        j = j + 1;
    }
    assert(row_v.take(row@.len() as int) =~= row_v);
    acc
}

/// The cart items of all rows, in order, or the error of the first row that
/// does not read as one.
pub fn cart_items_from_rows(rows: &Vec<Vec<ResultRowEntry>>) -> (r: Result<Vec<CartItem>, PgValueError>)
    ensures
        match r {
            Ok(items) => spec_row_items(rows_view(rows@)) == Ok::<Seq<CartItem>, PgValueError>(items@),
            Err(e) => spec_row_items(rows_view(rows@)) == Err::<Seq<CartItem>, PgValueError>(e),
        },
{
    let ghost rv = rows_view(rows@);
    let mut items: Vec<CartItem> = Vec::new();
    let mut failed: Option<PgValueError> = None;
    let mut i: usize = 0;
    while i < rows.len()
        invariant
            i <= rows@.len(),
            rv == rows_view(rows@),
            match failed {
                None => spec_row_items(rv.take(i as int)) == Ok::<Seq<CartItem>, PgValueError>(items@),
                Some(e) => spec_row_items(rv.take(i as int)) == Err::<Seq<CartItem>, PgValueError>(e),
            },
        decreases rows@.len() - i,
    {
        assert(rv[i as int] == row_view(rows@[i as int]@));
        assert(rv.take(i + 1).drop_last() =~= rv.take(i as int));
        assert(rv.take(i + 1).last() == rv[i as int]);
        if failed.is_none() {
            match cart_item_from_row(&rows[i]) {
                Ok(item) => items.push(item),
                Err(e) => failed = Some(e),
            }
        }
        i = i + 1;
    }
    assert(rv.take(rows@.len() as int) =~= rv);
    match failed {
        None => Ok(items),
        Some(e) => Err(e),
    }
}

/// The URL that the service routes: its own address followed by the request's
/// path and query (`/` when the request has none).
pub open spec fn spec_request_url(path_with_query: Option<Seq<char>>) -> Seq<char> {
    "http://127.0.0.1:8080"@ + match path_with_query {
        Some(p) => p,
        None => "/"@,
    }
}

/// The URL that the service routes.
pub fn request_url(path_with_query: Option<&str>) -> (r: String)
    ensures
        r@ == spec_request_url(match path_with_query {
            Some(p) => Some(p@),
            None => None,
        }),
{
    let base = String::from_str("http://127.0.0.1:8080");
    match path_with_query {
        Some(p) => base.concat(p),
        None => base.concat("/"),
    }
}

/// The body of an answer: the JSON document when there is one, else the
/// message, else nothing.
pub open spec fn spec_response_body(content: Option<PayloadView>, message: Option<Seq<char>>) -> BodyView {
    match content {
        Some(p) => BodyView::Json(p),
        None => match message {
            Some(m) => BodyView::Text(m),
            None => BodyView::Text(Seq::empty()),
        },
    }
}

/// A response with the status and the body chosen from the content and the
/// message; it has no headers.
pub fn create_response(status: u16, content: Option<Payload>, message: Option<String>) -> (r: Response)
    ensures
        r@ == response_view(status, Seq::empty(), spec_response_body(
            match content {
                Some(p) => Some(p@),
                None => None,
            },
            match message {
                Some(m) => Some(m@),
                None => None,
            },
        )),
{
    let body = match content {
        Some(p) => Body::Json(p),
        None => match message {
            Some(m) => Body::Text(m),
            None => Body::Text(String::new()),
        },
    };
    plain(status, body)
}

/// What a wasmCloud handler asks for next.
#[derive(PartialEq, Eq, Debug, Clone)]
pub enum WcStep {
    /// Run the query with these parameters and hand back its rows.
    Query { sql: String, params: Vec<PgValue> },
    /// Read the whole request body (`WcEvent::Body`).
    ReadBody,
    /// Read the body just handed back as a cart item (`WcEvent::Item`).
    ReadItem,
    /// Read the body just handed back as a cart item patch (`WcEvent::Patch`).
    ReadPatch,
    /// Send the response; the request is done.
    Reply(Response),
    /// The request is left without a response.
    NoResponse,
    /// The component stops here (a panic), with this message.
    Halt(String),
}

pub enum WcStepView {
    Query(Seq<char>, Seq<PgValue>),
    ReadBody,
    ReadItem,
    ReadPatch,
    Reply(ResponseView),
    NoResponse,
    Halt(Seq<char>),
}

impl View for WcStep {
    type V = WcStepView;

    open spec fn view(&self) -> WcStepView {
        match self {
            WcStep::Query { sql, params } => WcStepView::Query(sql@, params@),
            WcStep::ReadBody => WcStepView::ReadBody,
            WcStep::ReadItem => WcStepView::ReadItem,
            WcStep::ReadPatch => WcStepView::ReadPatch,
            WcStep::Reply(r) => WcStepView::Reply(r@),
            WcStep::NoResponse => WcStepView::NoResponse,
            WcStep::Halt(m) => WcStepView::Halt(m@),
        }
    }
}

/// What the host hands back to a wasmCloud handler.
#[derive(PartialEq, Eq, Debug)]
pub enum WcEvent {
    /// The rows of a query, or the interface's error message.
    Rows(Result<Vec<Vec<ResultRowEntry>>, String>),
    /// The request body.
    Body(Vec<u8>),
    /// The body read as a cart item, or why it could not be.
    Item(Result<CartItem, String>),
    /// The body read as a cart item patch, or why it could not be.
    Patch(Result<CartItemPatch, String>),
}

pub enum WcEventView {
    Rows(Result<Seq<Seq<(Seq<char>, PgValue)>>, Seq<char>>),
    Body(Seq<u8>),
    Item(Result<CartItem, Seq<char>>),
    Patch(Result<CartItemPatch, Seq<char>>),
}

impl View for WcEvent {
    type V = WcEventView;

    open spec fn view(&self) -> WcEventView {
        match self {
            WcEvent::Rows(Ok(rows)) => WcEventView::Rows(Ok(rows_view(rows@))),
            WcEvent::Rows(Err(e)) => WcEventView::Rows(Err(e@)),
            WcEvent::Body(b) => WcEventView::Body(b@),
            WcEvent::Item(Ok(i)) => WcEventView::Item(Ok(*i)),
            WcEvent::Item(Err(e)) => WcEventView::Item(Err(e@)),
            WcEvent::Patch(Ok(p)) => WcEventView::Patch(Ok(*p)),
            WcEvent::Patch(Err(e)) => WcEventView::Patch(Err(e@)),
        }
    }
}

/// Where a wasmCloud handler stands between two steps.
#[derive(PartialEq, Eq, Structural, Debug, Clone, Copy)]
pub enum WcState {
    Finished,
    /// Waiting for the rows of the cart lookup.
    Cart { cart_id: u32 },
    /// Waiting for the rows of the item listing.
    Items,
    /// Waiting for the body of an item to add.
    AwaitBody { cart_id: u32 },
    /// Waiting for that body as a cart item.
    AwaitItem { cart_id: u32 },
    /// Waiting for the outcome of inserting `item`.
    Inserting { item: CartItem },
    /// Waiting for the body of a patch.
    PatchBody { cart_id: u32 },
    /// Waiting for that body as a patch.
    AwaitPatch { cart_id: u32 },
    /// Waiting for the outcome of the update of an item.
    Updating { cart_id: u32, item_id: u32 },
    /// Waiting for the rows of the patched item.
    Reading,
    /// Waiting for the rows that a delete removed.
    Deleting,
}

/// The lookup of a cart's rows.
pub open spec fn select_cart_sql() -> Seq<char> {
    "\nSELECT * FROM cart.cart_items WHERE cart_id = $1;\n"@
}

/// The listing of a cart's items.
pub open spec fn select_items_sql() -> Seq<char> {
    "\nSELECT item_id, quantity, price FROM cart.cart_items WHERE cart_id = $1;\n"@
}

/// The insert of an item into a cart.
pub open spec fn insert_item_sql() -> Seq<char> {
    "\nINSERT INTO cart.cart_items VALUES($1, $2, $3, $4);\n"@
}

/// The parameters `[a]`.
pub open spec fn keys1(a: u32) -> Seq<PgValue> {
    seq![PgValue::Int(a as i32)]
}

/// The parameters `[a, b]`.
pub open spec fn keys2(a: u32, b: u32) -> Seq<PgValue> {
    seq![PgValue::Int(a as i32), PgValue::Int(b as i32)]
}

/// The parameter that stores a price given as an `f64`: its triple. A price
/// in another form has none.
pub open spec fn price_param(p: Price) -> Option<PgValue> {
    match p {
        Price::Double(bits) => {
            let (m, x, sg) = spec_decompose(bits);
            Some(PgValue::Float4(m, x, sg))
        },
        _ => None,
    }
}

/// The parameters of the insert of `item` into cart `cart_id`, its price
/// stored as `price`.
pub open spec fn insert_params(cart_id: u32, item: CartItem, price: PgValue) -> Seq<PgValue> {
    seq![PgValue::Int(cart_id as i32), PgValue::Int(item.id as i32), PgValue::Int(item.quantity as i32), price]
}

/// Whether a patch's price, if it gives one, is an `f64`.
pub open spec fn patch_price_ok(p: CartItemPatch) -> bool {
    match p.price {
        Some(pr) => pr is Double,
        None => true,
    }
}

/// The parameters of a patch's update: the cart, the item, then the given fields.
pub open spec fn patch_params(cart_id: u32, p: CartItemPatch) -> Seq<PgValue> {
    let keys = keys2(cart_id, p.id);
    let with_quantity = match p.quantity {
        Some(q) => keys.push(PgValue::Int(q as i32)),
        None => keys,
    };
    match p.price {
        Some(pr) => match price_param(pr) {
            Some(v) => with_quantity.push(v),
            None => with_quantity,
        },
        None => with_quantity,
    }
}

/// Send a response without headers.
pub open spec fn wc_reply(status: u16, body: BodyView) -> WcStepView {
    WcStepView::Reply(response_view(status, Seq::empty(), body))
}

/// The `404` answer.
pub open spec fn wc_not_found() -> WcStepView {
    wc_reply(404, BodyView::Text("not found"@))
}

/// Stop on an event that does not answer the step asked for.
pub open spec fn wc_unexpected() -> WcStepView {
    WcStepView::Halt("unexpected event"@)
}

/// The first step of the handler of a cart's items.
pub open spec fn spec_begin_items(c: u32, m: Method) -> (WcState, WcStepView) {
    match m {
        Method::Get => (WcState::Items, WcStepView::Query(select_items_sql(), keys1(c))),
        Method::Post => (WcState::AwaitBody { cart_id: c }, WcStepView::ReadBody),
        Method::Patch => (WcState::PatchBody { cart_id: c }, WcStepView::ReadBody),
        Method::Delete => (WcState::Deleting, WcStepView::Query(delete_items_sql(), keys1(c))),
        _ => (WcState::Finished, wc_not_found()),
    }
}

/// The first step for a routed request.
pub open spec fn spec_begin(r: RouteView, m: Method) -> (WcState, WcStepView) {
    let done = WcState::Finished;
    match r {
        RouteView::Cart(id) => match spec_parse_u32(id) {
            Err(e) => (done, wc_reply(400, BodyView::Text(e.spec_message()))),
            Ok(c) => if m is Get {
                (WcState::Cart { cart_id: c }, WcStepView::Query(select_cart_sql(), keys1(c)))
            } else {
                (done, wc_not_found())
            },
        },
        RouteView::CartItems(id) => match spec_parse_u32(id) {
            Err(e) => (done, wc_reply(400, BodyView::Text(e.spec_message()))),
            Ok(c) => spec_begin_items(c, m),
        },
        RouteView::CartItem(id, item) => match (spec_parse_u32(id), spec_parse_u32(item)) {
            (Err(e), _) => (done, wc_reply(400, BodyView::Text(e.spec_message()))),
            (Ok(_), Err(e)) => (done, wc_reply(400, BodyView::Text(e.spec_message()))),
            (Ok(c), Ok(i)) => if m is Delete {
                (WcState::Deleting, WcStepView::Query(delete_item_sql(), keys2(c, i)))
            } else {
                (done, wc_not_found())
            },
        },
        RouteView::Unmatched => (done, WcStepView::NoResponse),
    }
}

/// The step after a handler in state `s` is handed `e`.
pub open spec fn spec_advance(s: WcState, e: WcEventView) -> (WcState, WcStepView) {
    let done = WcState::Finished;
    match (s, e) {
        (WcState::Cart { cart_id }, WcEventView::Rows(Ok(_))) =>
            (done, wc_reply(200, BodyView::Json(PayloadView::Cart(cart_id)))),
        (WcState::Cart { cart_id }, WcEventView::Rows(Err(_))) => (done, wc_not_found()),
        (WcState::Items, WcEventView::Rows(Ok(rows))) => match spec_row_items(rows) {
            Ok(items) => (done, wc_reply(200, BodyView::Json(PayloadView::Items(items)))),
            Err(e) => (done, WcStepView::Halt(unwrap_err_panic(e.spec_message()))),
        },
        (WcState::Items, WcEventView::Rows(Err(_))) => (done, wc_not_found()),
        (WcState::AwaitBody { cart_id }, WcEventView::Body(bytes)) =>
            if bytes.len() == 0 {
                (done, wc_reply(500, BodyView::Text("request body is empty"@)))
            } else {
                (WcState::AwaitItem { cart_id }, WcStepView::ReadItem)
            },
        (WcState::AwaitItem { cart_id }, WcEventView::Item(Err(_))) =>
            (done, wc_reply(500, BodyView::Text("request body error"@))),
        (WcState::AwaitItem { cart_id }, WcEventView::Item(Ok(item))) => match price_param(item.price) {
            Some(price) => (WcState::Inserting { item }, WcStepView::Query(insert_item_sql(), insert_params(cart_id, item, price))),
            None => (done, wc_unexpected()),
        },
        (WcState::Inserting { item }, WcEventView::Rows(Ok(_))) =>
            (done, wc_reply(200, BodyView::Json(PayloadView::Item(item)))),
        (WcState::Inserting { item }, WcEventView::Rows(Err(_))) =>
            (done, wc_reply(400, BodyView::Text("duplicate item"@))),
        (WcState::PatchBody { cart_id }, WcEventView::Body(bytes)) =>
            if bytes.len() == 0 {
                (done, wc_reply(500, BodyView::Text("request body is empty"@)))
            } else {
                (WcState::AwaitPatch { cart_id }, WcStepView::ReadPatch)
            },
        (WcState::AwaitPatch { cart_id }, WcEventView::Patch(Err(_))) =>
            (done, wc_reply(500, BodyView::Text("request body error"@))),
        (WcState::AwaitPatch { cart_id }, WcEventView::Patch(Ok(p))) =>
            if !patch_price_ok(p) {
                (done, wc_unexpected())
            } else if p.quantity is Some || p.price is Some {
                (
                    WcState::Updating { cart_id, item_id: p.id },
                    WcStepView::Query(patch_update_sql(p), patch_params(cart_id, p)),
                )
            } else {
                (WcState::Reading, WcStepView::Query(select_item_sql(), keys2(cart_id, p.id)))
            },
        (WcState::Updating { cart_id, item_id }, WcEventView::Rows(Err(m))) =>
            (done, wc_reply(500, BodyView::Text(m))),
        (WcState::Updating { cart_id, item_id }, WcEventView::Rows(Ok(_))) =>
            (WcState::Reading, WcStepView::Query(select_item_sql(), keys2(cart_id, item_id))),
        (WcState::Reading, WcEventView::Rows(Err(_))) => (done, wc_not_found()),
        (WcState::Reading, WcEventView::Rows(Ok(rows))) =>
            if rows.len() == 0 {
                (done, wc_not_found())
            } else {
                match spec_row_item(rows[0]) {
                    Ok(item) => (done, wc_reply(200, BodyView::Json(PayloadView::Item(item)))),
                    Err(e) => (done, WcStepView::Halt(unwrap_err_panic(e.spec_message()))),
                }
            },
        (WcState::Deleting, WcEventView::Rows(Err(m))) => (done, wc_reply(500, BodyView::Text(m))),
        (WcState::Deleting, WcEventView::Rows(Ok(rows))) =>
            if rows.len() == 0 {
                (done, wc_not_found())
            } else {
                (done, wc_reply(200, BodyView::Text(Seq::empty())))
            },
        _ => (done, wc_unexpected()),
    }
}

fn keys1_exec(a: u32) -> (r: Vec<PgValue>)
    ensures
        r@ == keys1(a),
{
    let mut v = Vec::new();
    v.push(PgValue::Int(a as i32));
    assert(v@ =~= keys1(a));
    v
}

fn keys2_exec(a: u32, b: u32) -> (r: Vec<PgValue>)
    ensures
        r@ == keys2(a, b),
{
    let mut v = Vec::new();
    v.push(PgValue::Int(a as i32));
    v.push(PgValue::Int(b as i32));
    assert(v@ =~= keys2(a, b));
    v
}

fn run(sql: &str, params: Vec<PgValue>) -> (r: WcStep)
    ensures
        r@ == WcStepView::Query(sql@, params@),
{
    WcStep::Query { sql: String::from_str(sql), params }
}

fn reply_text(status: u16, message: String) -> (r: WcStep)
    ensures
        r@ == wc_reply(status, BodyView::Text(message@)),
{
    WcStep::Reply(create_response(status, None, Some(message)))
}

fn reply_json(p: Payload) -> (r: WcStep)
    ensures
        r@ == wc_reply(200, BodyView::Json(p@)),
{
    WcStep::Reply(create_response(200, Some(p), None))
}

fn not_found() -> (r: WcStep)
    ensures
        r@ == wc_not_found(),
{
    reply_text(404, String::from_str("not found"))
}

fn unexpected() -> (r: WcStep)
    ensures
        r@ == wc_unexpected(),
{
    WcStep::Halt(String::from_str("unexpected event"))
}

fn price_param_exec(p: Price) -> (r: Option<PgValue>)
    ensures
        r == price_param(p),
{
    match p {
        Price::Double(bits) => {
            let (m, x, sg) = decompose_f64_custom(bits);
            Some(PgValue::Float4(m, x, sg))
        },
        _ => None,
    }
}

fn begin_items(c: u32, m: &Method) -> (r: (WcState, WcStep))
    ensures
        (r.0, r.1@) == spec_begin_items(c, *m),
{
    match m {
        Method::Get => (
            WcState::Items,
            run("\nSELECT item_id, quantity, price FROM cart.cart_items WHERE cart_id = $1;\n", keys1_exec(c)),
        ),
        Method::Post => (WcState::AwaitBody { cart_id: c }, WcStep::ReadBody),
        Method::Patch => (WcState::PatchBody { cart_id: c }, WcStep::ReadBody),
        Method::Delete => (
            WcState::Deleting,
            run("DELETE FROM cart.cart_items WHERE cart_id = $1 RETURNING *", keys1_exec(c)),
        ),
        _ => (WcState::Finished, not_found()),
    }
}

/// The first step for a routed request: the identifiers are read from the
/// path, and the method picks the handler.
pub fn begin(route: &Route, m: &Method) -> (r: (WcState, WcStep))
    ensures
        (r.0, r.1@) == spec_begin(route@, *m),
{
    let done = WcState::Finished;
    match route {
        Route::Cart { cart_id } => match parse_u32(cart_id.as_str()) {
            Err(e) => (done, reply_text(400, e.message())),
            Ok(c) => match m {
                Method::Get => (
                    WcState::Cart { cart_id: c },
                    run("\nSELECT * FROM cart.cart_items WHERE cart_id = $1;\n", keys1_exec(c)),
                ),
                _ => (done, not_found()),
            },
        },
        Route::CartItems { cart_id } => match parse_u32(cart_id.as_str()) {
            Err(e) => (done, reply_text(400, e.message())),
            Ok(c) => begin_items(c, m),
        },
        Route::CartItem { cart_id, item_id } => {
            let c = match parse_u32(cart_id.as_str()) {
                Err(e) => return (done, reply_text(400, e.message())),
                Ok(c) => c,
            };
            let i = match parse_u32(item_id.as_str()) {
                Err(e) => return (done, reply_text(400, e.message())),
                Ok(i) => i,
            };
            match m {
                Method::Delete => (
                    WcState::Deleting,
                    run("DELETE FROM cart.cart_items WHERE cart_id = $1 AND item_id = $2 RETURNING *", keys2_exec(c, i)),
                ),
                _ => (done, not_found()),
            }
        },
        Route::Unmatched => (done, WcStep::NoResponse),
    }
}

fn on_item(cart_id: u32, item: CartItem) -> (r: (WcState, WcStep))
    ensures
        (r.0, r.1@) == spec_advance(WcState::AwaitItem { cart_id }, WcEventView::Item(Ok(item))),
{
    match price_param_exec(item.price) {
        Some(price) => {
            let mut params = keys2_exec(cart_id, item.id);
            params.push(PgValue::Int(item.quantity as i32));
            params.push(price);
            assert(params@ =~= insert_params(cart_id, item, price));
            (WcState::Inserting { item }, run("\nINSERT INTO cart.cart_items VALUES($1, $2, $3, $4);\n", params))
        },
        None => (WcState::Finished, unexpected()),
    }
}

fn on_patch(cart_id: u32, p: CartItemPatch) -> (r: (WcState, WcStep))
    ensures
        (r.0, r.1@) == spec_advance(WcState::AwaitPatch { cart_id }, WcEventView::Patch(Ok(p))),
{
    let price = match p.price {
        Some(pr) => match price_param_exec(pr) {
            Some(v) => Some(v),
            None => return (WcState::Finished, unexpected()),
        },
        None => None,
    };
    if p.quantity.is_some() || p.price.is_some() {
        let (sql, _) = patch_statement(cart_id, &p);
        let mut params = keys2_exec(cart_id, p.id);
        match p.quantity {
            Some(q) => params.push(PgValue::Int(q as i32)),
            None => {},
        }
        match price {
            Some(v) => params.push(v),
            None => {},
        }
        assert(params@ =~= patch_params(cart_id, p));
        (WcState::Updating { cart_id, item_id: p.id }, WcStep::Query { sql, params })
    } else {
        (
            WcState::Reading,
            run(
                "SELECT item_id, quantity, price FROM cart.cart_items WHERE cart_id = $1 AND item_id = $2",
                keys2_exec(cart_id, p.id),
            ),
        )
    }
}

fn on_rows(s: WcState, rows: &Vec<Vec<ResultRowEntry>>) -> (r: (WcState, WcStep))
    ensures
        (r.0, r.1@) == spec_advance(s, WcEventView::Rows(Ok(rows_view(rows@)))),
{
    let done = WcState::Finished;
    let ghost rv = rows_view(rows@);
    match s {
        WcState::Cart { cart_id } => (done, reply_json(Payload::Cart { customer_id: cart_id })),
        WcState::Items => match cart_items_from_rows(rows) {
            Ok(items) => (done, reply_json(Payload::Items(items))),
            Err(err) => (done, WcStep::Halt(unwrap_err_panic_text(err.message().as_str()))),
        },
        WcState::Inserting { item } => (done, reply_json(Payload::Item(item))),
        WcState::Updating { cart_id, item_id } => (
            WcState::Reading,
            run(
                "SELECT item_id, quantity, price FROM cart.cart_items WHERE cart_id = $1 AND item_id = $2",
                keys2_exec(cart_id, item_id),
            ),
        ),
        WcState::Reading => {
            if rows.len() == 0 {
                (done, not_found())
            } else {
                assert(rv[0] == row_view(rows@[0]@));
                match cart_item_from_row(&rows[0]) {
                    Ok(item) => (done, reply_json(Payload::Item(item))),
                    Err(err) => (done, WcStep::Halt(unwrap_err_panic_text(err.message().as_str()))),
                }
            }
        },
        WcState::Deleting => {
            if rows.len() == 0 {
                (done, not_found())
            } else {
                (done, reply_text(200, String::new()))
            }
        },
        _ => (done, unexpected()),
    }
}

fn on_rows_err(s: WcState, m: &String) -> (r: (WcState, WcStep))
    ensures
        (r.0, r.1@) == spec_advance(s, WcEventView::Rows(Err(m@))),
{
    let done = WcState::Finished;
    match s {
        WcState::Cart { .. } => (done, not_found()),
        WcState::Items => (done, not_found()),
        WcState::Inserting { .. } => (done, reply_text(400, String::from_str("duplicate item"))),
        WcState::Updating { .. } => (done, reply_text(500, m.clone())),
        WcState::Reading => (done, not_found()),
        WcState::Deleting => (done, reply_text(500, m.clone())),
        _ => (done, unexpected()),
    }
}

fn step(s: WcState, e: &WcEvent) -> (r: (WcState, WcStep))
    ensures
        (r.0, r.1@) == spec_advance(s, e@),
{
    let done = WcState::Finished;
    match (s, e) {
        (_, WcEvent::Rows(Ok(rows))) => on_rows(s, rows),
        (_, WcEvent::Rows(Err(m))) => on_rows_err(s, m),
        (WcState::AwaitBody { cart_id }, WcEvent::Body(bytes)) => {
            if bytes.len() == 0 {
                (done, reply_text(500, String::from_str("request body is empty")))
            } else {
                (WcState::AwaitItem { cart_id }, WcStep::ReadItem)
            }
        },
        (WcState::PatchBody { cart_id }, WcEvent::Body(bytes)) => {
            if bytes.len() == 0 {
                (done, reply_text(500, String::from_str("request body is empty")))
            } else {
                (WcState::AwaitPatch { cart_id }, WcStep::ReadPatch)
            }
        },
        (WcState::AwaitItem { .. }, WcEvent::Item(Err(_))) =>
            (done, reply_text(500, String::from_str("request body error"))),
        (WcState::AwaitItem { cart_id }, WcEvent::Item(Ok(item))) => on_item(cart_id, *item),
        (WcState::AwaitPatch { .. }, WcEvent::Patch(Err(_))) =>
            (done, reply_text(500, String::from_str("request body error"))),
        (WcState::AwaitPatch { cart_id }, WcEvent::Patch(Ok(p))) => on_patch(cart_id, *p),
        _ => (done, unexpected()),
    }
}

/// The next step of a handler in state `s` that is handed `e`. The inputs on
/// which the service stops (a panic) are left out: `halt_reason` names them.
pub fn advance(s: WcState, e: &WcEvent) -> (r: (WcState, WcStep))
    requires
        !(spec_advance(s, e@).1 is Halt),
    ensures
        (r.0, r.1@) == spec_advance(s, e@),
{
    step(s, e)
}

/// The message the service stops with when a handler in state `s` is handed
/// `e`, or `None` when it goes on.
pub fn halt_reason(s: WcState, e: &WcEvent) -> (r: Option<String>)
    ensures
        r is Some <==> spec_advance(s, e@).1 is Halt,
        r matches Some(m) ==> spec_advance(s, e@).1 == WcStepView::Halt(m@),
{
    match step(s, e).1 {
        WcStep::Halt(m) => Some(m),
        _ => None,
    }
}

/// A column that names none of the item's fields leaves the item as it is.
pub proof fn law_other_columns_ignored(acc: Result<CartItem, PgValueError>, name: Seq<char>, v: PgValue)
    requires
        name != "item_id"@,
        name != "quantity"@,
        name != "price"@,
    ensures
        apply_column(acc, name, v) == acc,
{
}

/// A response with a JSON document carries the document, whatever message is given.
pub proof fn law_content_beats_message(p: PayloadView, m: Option<Seq<char>>)
    ensures
        spec_response_body(Some(p), m) == BodyView::Json(p),
{
}

/// The row that an insert with parameters `params` stores, as the listing
/// reads it back: its `item_id`, `quantity` and `price` columns.
pub open spec fn stored_row(params: Seq<PgValue>) -> Seq<(Seq<char>, PgValue)> {
    seq![("item_id"@, params[1]), ("quantity"@, params[2]), ("price"@, params[3])]
}

/// An item as the listing gives it back after it was added: its identifier
/// and quantity, and its price as the triple that the insert stored.
pub open spec fn as_listed(item: CartItem) -> CartItem {
    let (m, x, sg) = spec_decompose(item.price->Double_0);
    CartItem { price: Price::Parts { mantissa: m, exponent: x, sign: sg }, ..item }
}

/// The parameters of the insert of `item`, whose price is an `f64`.
pub open spec fn added_params(cart_id: u32, item: CartItem) -> Seq<PgValue> {
    insert_params(cart_id, item, price_param(item.price)->Some_0)
}

proof fn lemma_stored_row_reads_back(cart_id: u32, item: CartItem)
    requires
        item.price is Double,
    ensures
        spec_row_item(stored_row(added_params(cart_id, item))) == Ok::<CartItem, PgValueError>(as_listed(item)),
{
    let id = item.id;
    let q = item.quantity;
    assert((id as i32) as u32 == id) by (bit_vector);
    assert((q as i32) as u32 == q) by (bit_vector);
    let row = stored_row(added_params(cart_id, item));
    reveal_with_fuel(apply_row, 4);
    assert(row.drop_last().drop_last().drop_last() =~= Seq::<(Seq<char>, PgValue)>::empty());
    assert(row.drop_last().drop_last() =~= seq![row[0]]);
    assert(row.drop_last() =~= seq![row[0], row[1]]);
    assert("item_id"@ != "quantity"@) by {
        reveal_strlit("item_id");
        reveal_strlit("quantity");
        assert("item_id"@.len() != "quantity"@.len());
    }
    assert("item_id"@ != "price"@) by {
        reveal_strlit("item_id");
        reveal_strlit("price");
        assert("item_id"@.len() != "price"@.len());
    }
    assert("quantity"@ != "price"@) by {
        reveal_strlit("quantity");
        reveal_strlit("price");
        assert("quantity"@.len() != "price"@.len());
    }
}

proof fn lemma_rows_read_back(cart_id: u32, items: Seq<CartItem>)
    requires
        forall|i: int| 0 <= i < items.len() ==> (#[trigger] items[i]).price is Double,
    ensures
        spec_row_items(items.map_values(|it: CartItem| stored_row(added_params(cart_id, it))))
            == Ok::<Seq<CartItem>, PgValueError>(items.map_values(|it: CartItem| as_listed(it))),
    decreases items.len(),
{
    let rows = items.map_values(|it: CartItem| stored_row(added_params(cart_id, it)));
    if items.len() > 0 {
        let rest = items.drop_last();
        lemma_rows_read_back(cart_id, rest);
        assert(rows.drop_last() =~= rest.map_values(|it: CartItem| stored_row(added_params(cart_id, it))));
        lemma_stored_row_reads_back(cart_id, items.last());
        assert(items.map_values(|it: CartItem| as_listed(it)) =~= rest.map_values(|it: CartItem| as_listed(it)).push(
            as_listed(items.last()),
        ));
    } else {
        assert(rows =~= Seq::<Seq<(Seq<char>, PgValue)>>::empty());
        assert(items.map_values(|it: CartItem| as_listed(it)) =~= Seq::<CartItem>::empty());
    }
}

/// What the listing gives back of added items: each item added to a cart is
/// inserted with its cart, identifier, quantity and the triple of its price,
/// and when the listing of that cart then reads back the rows those inserts
/// stored, in the order of the rows, the answer lists those items in that
/// order, with their identifiers and quantities and the stored triples as
/// their prices.
pub proof fn law_listing_returns_added_items(cart_id: u32, items: Seq<CartItem>)
    requires
        forall|i: int| 0 <= i < items.len() ==> (#[trigger] items[i]).price is Double,
    ensures
        forall|i: int| 0 <= i < items.len() ==>
            spec_advance(WcState::AwaitItem { cart_id }, WcEventView::Item(Ok(#[trigger] items[i])))
                == (WcState::Inserting { item: items[i] }, WcStepView::Query(insert_item_sql(), added_params(cart_id, items[i]))),
        spec_advance(
            WcState::Items,
            WcEventView::Rows(Ok(items.map_values(|it: CartItem| stored_row(added_params(cart_id, it))))),
        ) == (WcState::Finished, wc_reply(200, BodyView::Json(PayloadView::Items(items.map_values(|it: CartItem| as_listed(it)))))),
{
    lemma_rows_read_back(cart_id, items);
}

/// What the service answers once rows are gone: a delete of a cart's items
/// removes the rows of that cart, and a delete of one item the rows of that
/// cart and item; a later listing of the cart that reads no rows answers
/// with an empty list, and a later delete that removes no row answers
/// `404 not found`.
pub proof fn law_answers_after_delete(cart_id: u32, item_id: u32)
    ensures
        spec_begin(RouteView::CartItems(decimal(cart_id as nat)), Method::Delete) == (
            WcState::Deleting,
            WcStepView::Query("DELETE FROM cart.cart_items WHERE cart_id = $1 RETURNING *"@, seq![PgValue::Int(cart_id as i32)]),
        ),
        spec_begin(RouteView::CartItem(decimal(cart_id as nat), decimal(item_id as nat)), Method::Delete) == (
            WcState::Deleting,
            WcStepView::Query(
                "DELETE FROM cart.cart_items WHERE cart_id = $1 AND item_id = $2 RETURNING *"@,
                seq![PgValue::Int(cart_id as i32), PgValue::Int(item_id as i32)],
            ),
        ),
        spec_advance(WcState::Items, WcEventView::Rows(Ok(Seq::empty())))
            == (WcState::Finished, wc_reply(200, BodyView::Json(PayloadView::Items(Seq::empty())))),
        spec_advance(WcState::Deleting, WcEventView::Rows(Ok(Seq::empty())))
            == (WcState::Finished, wc_reply(404, BodyView::Text("not found"@))),
{
    law_parse_decimal_roundtrip(cart_id);
    law_parse_decimal_roundtrip(item_id);
}

/// The statements the service runs for each request, and how it answers
/// their outcomes: a `GET` of a cart looks up its rows and answers the cart
/// as JSON whatever rows come back (`404 not found` only when the lookup
/// fails); a `GET` of the items asks for the item, quantity and price columns;
/// an added item is inserted as the row (cart, item, quantity, price triple)
/// and answered as JSON when the insert runs, `400 duplicate item` when it
/// fails.
pub proof fn law_requests(cart_id: u32, item: CartItem, rows: Seq<Seq<(Seq<char>, PgValue)>>, m: Seq<char>)
    requires
        item.price is Double,
    ensures
        spec_begin(RouteView::Cart(decimal(cart_id as nat)), Method::Get) == (
            WcState::Cart { cart_id },
            WcStepView::Query("\nSELECT * FROM cart.cart_items WHERE cart_id = $1;\n"@, seq![PgValue::Int(cart_id as i32)]),
        ),
        spec_advance(WcState::Cart { cart_id }, WcEventView::Rows(Ok(rows)))
            == (WcState::Finished, wc_reply(200, BodyView::Json(PayloadView::Cart(cart_id)))),
        spec_advance(WcState::Cart { cart_id }, WcEventView::Rows(Err(m)))
            == (WcState::Finished, wc_reply(404, BodyView::Text("not found"@))),
        spec_begin(RouteView::CartItems(decimal(cart_id as nat)), Method::Get) == (
            WcState::Items,
            WcStepView::Query(
                "\nSELECT item_id, quantity, price FROM cart.cart_items WHERE cart_id = $1;\n"@,
                seq![PgValue::Int(cart_id as i32)],
            ),
        ),
        spec_begin(RouteView::CartItems(decimal(cart_id as nat)), Method::Post)
            == (WcState::AwaitBody { cart_id }, WcStepView::ReadBody),
        ({
            let (mm, x, sg) = spec_decompose(item.price->Double_0);
            spec_advance(WcState::AwaitItem { cart_id }, WcEventView::Item(Ok(item))) == (
                WcState::Inserting { item },
                WcStepView::Query("\nINSERT INTO cart.cart_items VALUES($1, $2, $3, $4);\n"@, seq![
                    PgValue::Int(cart_id as i32),
                    PgValue::Int(item.id as i32),
                    PgValue::Int(item.quantity as i32),
                    PgValue::Float4(mm, x, sg),
                ]),
            )
        }),
        spec_advance(WcState::Inserting { item }, WcEventView::Rows(Ok(rows)))
            == (WcState::Finished, wc_reply(200, BodyView::Json(PayloadView::Item(item)))),
        spec_advance(WcState::Inserting { item }, WcEventView::Rows(Err(m)))
            == (WcState::Finished, wc_reply(400, BodyView::Text("duplicate item"@))),
{
    law_parse_decimal_roundtrip(cart_id);
    let (mm, x, sg) = spec_decompose(item.price->Double_0);
    assert(insert_params(cart_id, item, PgValue::Float4(mm, x, sg)) =~= seq![
        PgValue::Int(cart_id as i32),
        PgValue::Int(item.id as i32),
        PgValue::Int(item.quantity as i32),
        PgValue::Float4(mm, x, sg),
    ]);
}

/// An upper bound on the steps a wasmCloud handler still asks for.
pub open spec fn steps_left(s: WcState) -> nat {
    match s {
        WcState::Finished => 0,
        WcState::AwaitBody { .. } => 3,
        WcState::AwaitItem { .. } => 2,
        WcState::PatchBody { .. } => 4,
        WcState::AwaitPatch { .. } => 3,
        WcState::Updating { .. } => 2,
        _ => 1,
    }
}

/// Every routed request ends: each step finishes the handler or brings it
/// closer to its answer.
pub proof fn law_handler_ends(s: WcState, e: WcEventView)
    ensures
        spec_advance(s, e).0 == WcState::Finished || steps_left(spec_advance(s, e).0) < steps_left(s),
{
}

} // verus!
