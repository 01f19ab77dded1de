//! The order service: takes an order, reserves stock for each line of its
//! checkout, and, when the last line could be served, records the customer,
//! the order and its items.
//!
//! A run goes line by line: it reads the stock of the line's product; when
//! the stock minus the ordered quantity is positive it writes the new stock,
//! tallies the line and marks the order as processing, else it marks the
//! order as canceled. The state after the last line decides: a processing
//! order is recorded and becomes completed; any other state is the outcome.
//! Statements are SQL texts with the values written in.
use vstd::prelude::*;
use vstd::string::*;
use crate::cart::DbValue;
use crate::exchange::{Event, EventView, Statement, StatementView};
use crate::http::{response_view, Body, BodyView, Header, Response};
use crate::text::{
    decimal_i64, expect_panic, expect_panic_text, signed_decimal, unwrap_err_panic, unwrap_err_panic_text,
    unwrap_none_panic, unwrap_none_panic_text,
};

verus! {

/// The customer of an order.
#[derive(PartialEq, Eq, Debug, Clone)]
pub struct Customer {
    pub name: String,
    pub email: String,
    pub phone: String,
    pub address: String,
    pub city: String,
    pub pin: String,
}

/// A line of an order's checkout: a product and how many of it are ordered.
#[derive(PartialEq, Eq, Debug, Clone)]
pub struct Cart {
    pub id: i32,
    pub name: String,
    pub image: String,
    pub price: i32,
    pub quantity: i32,
}

/// The state of an order.
#[derive(PartialEq, Eq, Structural, Debug, Clone, Copy)]
pub enum OrderState {
    Checkout,
    Pending,
    Processing,
    Canceled,
    Completed,
}

/// An order as it is posted.
#[derive(PartialEq, Eq, Debug, Clone)]
pub struct Order {
    pub customer: Customer,
    pub checkout: Vec<Cart>,
    pub order_total: String,
    pub order_state: OrderState,
}

pub struct CustomerView {
    pub name: Seq<char>,
    pub email: Seq<char>,
    pub phone: Seq<char>,
    pub address: Seq<char>,
    pub city: Seq<char>,
    pub pin: Seq<char>,
}

pub struct CartView {
    pub id: i32,
    pub name: Seq<char>,
    pub image: Seq<char>,
    pub price: i32,
    pub quantity: i32,
}

pub struct OrderView {
    pub customer: CustomerView,
    pub checkout: Seq<CartView>,
    pub order_total: Seq<char>,
    pub order_state: OrderState,
}

impl View for Customer {
    type V = CustomerView;

    open spec fn view(&self) -> CustomerView {
        CustomerView {
            name: self.name@,
            email: self.email@,
            phone: self.phone@,
            address: self.address@,
            city: self.city@,
            pin: self.pin@,
        }
    }
}

impl View for Cart {
    type V = CartView;

    open spec fn view(&self) -> CartView {
        CartView {
            id: self.id,
            name: self.name@,
            image: self.image@,
            price: self.price,
            quantity: self.quantity,
        }
    }
}

impl View for Order {
    type V = OrderView;

    open spec fn view(&self) -> OrderView {
        OrderView {
            customer: self.customer@,
            checkout: self.checkout@.map_values(|c: Cart| c@),
            order_total: self.order_total@,
            order_state: self.order_state,
        }
    }
}

/// Where a run stands between two statements.
#[derive(PartialEq, Eq, Structural, Debug, Clone, Copy)]
pub enum Phase {
    /// Waiting for the stock of line `index`.
    Stock { index: usize },
    /// Waiting for the stock of line `index` to be set to `remaining`.
    Restock { index: usize, remaining: i32 },
    /// Waiting for the customer to be recorded.
    Customer,
    /// Waiting for the customer's id, for the order record.
    DetailCustomer,
    /// Waiting for the order to be recorded.
    Detail,
    /// Waiting for the customer's id, for the item of line `index`.
    ItemCustomer { index: usize, quantity: i32 },
    /// Waiting for the order's id, for the item of line `index`.
    ItemOrder { index: usize, quantity: i32 },
    /// Waiting for the item of line `index` to be recorded.
    ItemInsert { index: usize },
    /// The run is over.
    Finished,
}

/// A run of the order service on one order.
pub struct OrderRun {
    order: Order,
    start_time: String,
    tally: Vec<(String, i32)>,
    state: OrderState,
    phase: Phase,
}

pub struct OrderRunView {
    pub order: OrderView,
    pub start_time: Seq<char>,
    pub tally: Seq<(Seq<char>, i32)>,
    pub state: OrderState,
    pub phase: Phase,
}

impl View for OrderRun {
    type V = OrderRunView;

    closed spec fn view(&self) -> OrderRunView {
        OrderRunView {
            order: self.order@,
            start_time: self.start_time@,
            tally: tally_view(self.tally@),
            state: self.state,
            phase: self.phase,
        }
    }
}

/// Where the service stops (a panic). The error texts that the host hands
/// back are taken as the errors' debug forms.
#[derive(PartialEq, Eq, Debug, Clone)]
pub struct OrderHalt {
    /// The panic's message, or its start when `with_value` is set.
    pub message: String,
    /// The message goes on with the debug form of the first value of the
    /// first row just handed back.
    pub with_value: bool,
}

/// What a run asks for next.
#[derive(PartialEq, Eq, Debug, Clone)]
pub enum OrderStep {
    /// Run the statement (without parameters) and hand back its outcome.
    Run(Statement),
    /// The run is over with this state.
    Done(OrderState),
    /// The service stops here.
    Halt(OrderHalt),
}

pub enum OrderStepView {
    Run(StatementView),
    Done(OrderState),
    Halt(Seq<char>, bool),
}

impl View for OrderStep {
    type V = OrderStepView;

    open spec fn view(&self) -> OrderStepView {
        match self {
            OrderStep::Run(s) => OrderStepView::Run(s@),
            OrderStep::Done(st) => OrderStepView::Done(*st),
            OrderStep::Halt(h) => OrderStepView::Halt(h.message@, h.with_value),
        }
    }
}

/// A lookup whose answer is the first column of the first row.
#[derive(PartialEq, Eq, Structural, Debug, Clone, Copy)]
pub enum Lookup {
    ArticleQuantity,
    CustomerId,
    OrderId,
}

/// A lookup whose first value is not a 32-bit integer.
#[derive(PartialEq, Eq, Structural, Debug, Clone, Copy)]
pub struct LookupError {
    pub which: Lookup,
}

/// What a lookup fetches.
pub open spec fn lookup_subject(w: Lookup) -> Seq<char> {
    match w {
        Lookup::ArticleQuantity => "article quantity"@,
        Lookup::CustomerId => "customer id"@,
        Lookup::OrderId => "order id"@,
    }
}

impl LookupError {
    /// The start of the error's message; the debug form of the value that is
    /// not a 32-bit integer follows it.
    pub open spec fn spec_prefix(self) -> Seq<char> {
        "Unexpected error while fetching "@ + lookup_subject(self.which) + " from database: "@
    }

    pub fn prefix(&self) -> (r: String)
        ensures
            r@ == self.spec_prefix(),
    {
        let subject = match self.which {
            Lookup::ArticleQuantity => "article quantity",
            Lookup::CustomerId => "customer id",
            Lookup::OrderId => "order id",
        };
        String::from_str("Unexpected error while fetching ").concat(subject).concat(" from database: ")
    }
}

/// The names in a tally are distinct.
pub open spec fn tally_unique(t: Seq<(Seq<char>, i32)>) -> bool {
    forall|i: int, j: int| 0 <= i < j < t.len() ==> #[trigger] t[i].0 != #[trigger] t[j].0
}

/// The quantity tallied for `name`.
pub open spec fn tally_get(t: Seq<(Seq<char>, i32)>, name: Seq<char>) -> Option<i32> {
    if exists|i: int| 0 <= i < t.len() && #[trigger] t[i].0 == name {
        Some(t[choose|i: int| 0 <= i < t.len() && #[trigger] t[i].0 == name].1)
    } else {
        None
    }
}

/// The tally with `name` set to `q`: an existing entry keeps its place.
pub open spec fn tally_set(t: Seq<(Seq<char>, i32)>, name: Seq<char>, q: i32) -> Seq<(Seq<char>, i32)> {
    if exists|i: int| 0 <= i < t.len() && #[trigger] t[i].0 == name {
        t.update(choose|i: int| 0 <= i < t.len() && #[trigger] t[i].0 == name, (name, q))
    } else {
        t.push((name, q))
    }
}

/// A lowercase hexadecimal digit.
pub open spec fn hex_digit(d: nat) -> char {
    if d < 10 {
        ((d + 48) as u8) as char
    } else {
        ((d + 87) as u8) as char
    }
}

/// A character as it stands inside a JSON string literal: `"` and `\` and
/// the control characters below `0x20` are escaped, with the short escapes
/// `\b`, `\t`, `\n`, `\f`, `\r` where JSON has them and `\u00` with two
/// lowercase hexadecimal digits for the others; every other character stands
/// for itself.
pub open spec fn json_escape(c: char) -> Seq<char> {
    if c == '"' {
        seq!['\\', '"']
    } else if c == '\\' {
        seq!['\\', '\\']
    } else if c == '\u{8}' {
        seq!['\\', 'b']
    } else if c == '\t' {
        seq!['\\', 't']
    } else if c == '\n' {
        seq!['\\', 'n']
    } else if c == '\u{c}' {
        seq!['\\', 'f']
    } else if c == '\r' {
        seq!['\\', 'r']
    } else if (c as u32) < 0x20 {
        seq!['\\', 'u', '0', '0', hex_digit((c as u32 / 16) as nat), hex_digit((c as u32 % 16) as nat)]
    } else {
        seq![c]
    }
}

/// The characters of `s`, each as it stands inside a JSON string literal.
pub open spec fn json_escaped(s: Seq<char>) -> Seq<char>
    decreases s.len(),
{
    if s.len() == 0 {
        Seq::empty()
    } else {
        json_escaped(s.drop_last()) + json_escape(s.last())
    }
}

/// The JSON string literal of `s`: its escaped characters between quotes.
pub open spec fn json_string(s: Seq<char>) -> Seq<char> {
    seq!['"'] + json_escaped(s) + seq!['"']
}

/// Writes `s` as a JSON string literal with `serde_json::to_string`. Claimed:
/// the result is `json_string(s)`, the escaping that serde_json's string
/// serializer applies (its escape table and `\u00xx` form). Serialising a
/// `str` into memory cannot fail in serde_json's source, so the error arm is
/// never taken.
#[verifier::external_body]
fn json_quote(s: &str) -> (r: String)
    ensures
        r@ == json_string(s@),
{
    match serde_json::to_string(s) {
        Ok(text) => text,
        Err(_) => String::new(),
    }
}

/// One product of the tally as a JSON member.
pub open spec fn json_entry(e: (Seq<char>, i32)) -> Seq<char> {
    json_string(e.0) + ":"@ + signed_decimal(e.1 as int)
}

/// The tally's products as JSON members, separated by commas.
pub open spec fn json_entries(t: Seq<(Seq<char>, i32)>) -> Seq<char>
    decreases t.len(),
{
    if t.len() == 0 {
        Seq::empty()
    } else if t.len() == 1 {
        json_entry(t[0])
    } else {
        json_entries(t.drop_last()) + ","@ + json_entry(t.last())
    }
}

/// The tally as a JSON object, in the order the products were first tallied.
pub open spec fn tally_json(t: Seq<(Seq<char>, i32)>) -> Seq<char> {
    "{"@ + json_entries(t) + "}"@
}

/// The lookup of the stock of a line's product.
pub open spec fn stock_sql(line: CartView) -> Seq<char> {
    "SELECT quantity FROM products.\"product_details\" WHERE name = '"@ + line.name
        + "' AND article_number = '"@ + signed_decimal(line.id as int) + "'"@
}

/// The write of a product's remaining stock.
pub open spec fn restock_sql(remaining: i32, name: Seq<char>) -> Seq<char> {
    "UPDATE products.\"product_details\" SET quantity = '"@ + signed_decimal(remaining as int)
        + "' WHERE name = '"@ + name + "'"@
}

/// The record of the customer, or of their last order time.
pub open spec fn customer_sql(c: CustomerView, t: Seq<char>) -> Seq<char> {
    "INSERT INTO products.\"customers\" (name, email, phone, address, city, pin, last_ordered) VALUES ('"@
        + c.name + "', '"@ + c.email + "', '"@ + c.phone + "', '"@ + c.address + "', '"@ + c.city + "', '"@
        + c.pin + "', '"@ + t + "') ON CONFLICT (name, email) DO UPDATE SET last_ordered = EXCLUDED.last_ordered"@
}

/// The lookup of the customer's id.
pub open spec fn customer_id_sql(c: CustomerView) -> Seq<char> {
    "SELECT id FROM products.\"customers\" WHERE name = '"@ + c.name + "' AND email = '"@ + c.email + "'"@
}

/// The lookup of the order's id, by customer and time.
pub open spec fn order_id_sql(customer_id: i32, t: Seq<char>) -> Seq<char> {
    "SELECT id FROM products.\"order_details\" WHERE customer_id = '"@ + signed_decimal(customer_id as int)
        + "' AND timestamp_created = '"@ + t + "'"@
}

/// The record of the order as completed.
pub open spec fn detail_sql(t: Seq<char>, tally: Seq<(Seq<char>, i32)>, total: Seq<char>, customer_id: i32) -> Seq<char> {
    "INSERT INTO products.\"order_details\" (timestamp_created, total_products, total_price, customer_id, order_state) VALUES ('"@
        + t + "', '"@ + tally_json(tally) + "', '"@ + total + "', '"@ + signed_decimal(customer_id as int)
        + "', 'Completed')"@
}

/// The record of one item of the order.
pub open spec fn item_sql(order_id: i32, product_id: i32, quantity: i32, t: Seq<char>) -> Seq<char> {
    "INSERT INTO products.\"order_items\" (order_id, product_id, order_quantity, timestamp_created) VALUES ('"@
        + signed_decimal(order_id as int) + "', '"@ + signed_decimal(product_id as int) + "', '"@
        + signed_decimal(quantity as int) + "', '"@ + t + "')"@
}

/// The answer of a lookup: the first column of the first row as an `i32`, `0`
/// when there is no row or no column, and an error when the value is not a
/// 32-bit integer.
pub open spec fn spec_first_int(rows: Seq<Seq<DbValue>>, which: Lookup) -> Result<i32, LookupError> {
    if rows.len() == 0 || rows[0].len() == 0 {
        Ok(0)
    } else {
        match rows[0][0] {
            DbValue::Int32(v) => Ok(v),
            _ => Err(LookupError { which }),
        }
    }
}

/// The rows an event hands back.
pub open spec fn rows_of(e: EventView) -> Result<Seq<Seq<DbValue>>, Seq<char>> {
    match e {
        EventView::Rows(r) => r,
        _ => Err(Seq::empty()),
    }
}

/// Run a query without parameters.
pub open spec fn run_query(sql: Seq<char>) -> OrderStepView {
    OrderStepView::Run(StatementView::Query(sql, Seq::empty()))
}

/// Run an execute without parameters.
pub open spec fn run_execute(sql: Seq<char>) -> OrderStepView {
    OrderStepView::Run(StatementView::Execute(sql, Seq::empty()))
}

/// The run, moved to phase `p`.
pub open spec fn at(r: OrderRunView, p: Phase) -> OrderRunView {
    OrderRunView { phase: p, ..r }
}

/// The run stops with the message `why`, followed by the debug form of the
/// first value handed back when `with_value` is set.
pub open spec fn halted(r: OrderRunView, why: Seq<char>, with_value: bool) -> (OrderRunView, OrderStepView) {
    (at(r, Phase::Finished), OrderStepView::Halt(why, with_value))
}

/// Stop on an event that does not answer the statement asked for.
pub open spec fn halted_unexpected(r: OrderRunView) -> (OrderRunView, OrderStepView) {
    halted(r, "unexpected event"@, false)
}

/// Stop as the `expect` with the text `context` does on the statement error `m`.
pub open spec fn halted_expect(r: OrderRunView, context: Seq<char>, m: Seq<char>) -> (OrderRunView, OrderStepView) {
    halted(r, expect_panic(context, m), false)
}

/// Stop as `unwrap` does on the statement error `m`.
pub open spec fn halted_unwrap(r: OrderRunView, m: Seq<char>) -> (OrderRunView, OrderStepView) {
    halted(r, unwrap_err_panic(m), false)
}

/// After the lines: a processing order is recorded, starting with its customer;
/// any other order is done.
pub open spec fn spec_after_lines(r: OrderRunView) -> (OrderRunView, OrderStepView) {
    if r.state == OrderState::Processing {
        (at(r, Phase::Customer), run_execute(customer_sql(r.order.customer, r.start_time)))
    } else {
        (at(r, Phase::Finished), OrderStepView::Done(r.state))
    }
}

/// Go on with line `i`, or end the lines.
pub open spec fn spec_line(r: OrderRunView, i: int) -> (OrderRunView, OrderStepView) {
    if i < r.order.checkout.len() {
        (at(r, Phase::Stock { index: i as usize }), run_query(stock_sql(r.order.checkout[i])))
    } else {
        spec_after_lines(r)
    }
}

/// Go on with the item of line `i`, or complete the order.
pub open spec fn spec_item(r: OrderRunView, i: int) -> (OrderRunView, OrderStepView) {
    if i < r.order.checkout.len() {
        match tally_get(r.tally, r.order.checkout[i].name) {
            None => halted(r, unwrap_none_panic(), false),
            Some(q) => (
                at(r, Phase::ItemCustomer { index: i as usize, quantity: q }),
                run_query(customer_id_sql(r.order.customer)),
            ),
        }
    } else {
        (OrderRunView { phase: Phase::Finished, state: OrderState::Completed, ..r }, OrderStepView::Done(OrderState::Completed))
    }
}

/// The first step of a run on `order` that started at the time written `start_time`.
pub open spec fn spec_begin(order: OrderView, start_time: Seq<char>) -> (OrderRunView, OrderStepView) {
    spec_line(
        OrderRunView { order, start_time, tally: Seq::empty(), state: OrderState::Pending, phase: Phase::Finished },
        0,
    )
}

/// The step after a run in `r` is handed `e`.
pub open spec fn spec_advance(r: OrderRunView, e: EventView) -> (OrderRunView, OrderStepView) {
    match r.phase {
        Phase::Stock { index } => match e {
            EventView::Rows(Ok(rows)) => match spec_first_int(rows, Lookup::ArticleQuantity) {
                Err(err) => halted(r, expect_panic("Product quantity query failed"@, err.spec_prefix()), true),
                Ok(stock) => {
                    let line = r.order.checkout[index as int];
                    let remaining = stock - line.quantity;
                    if remaining < i32::MIN || remaining > i32::MAX {
                        halted(r, "attempt to subtract with overflow"@, false)
                    } else if remaining <= 0 {
                        spec_line(OrderRunView { state: OrderState::Canceled, ..r }, index + 1)
                    } else {
                        (
                            at(r, Phase::Restock { index, remaining: remaining as i32 }),
                            run_query(restock_sql(remaining as i32, line.name)),
                        )
                    }
                },
            },
            EventView::Rows(Err(m)) => halted_expect(r, "Product quantity query failed"@, m),
            _ => halted_unexpected(r),
        },
        Phase::Restock { index, remaining } => match e {
            EventView::Rows(Ok(_)) => {
                let line = r.order.checkout[index as int];
                spec_line(
                    OrderRunView {
                        tally: tally_set(r.tally, line.name, line.quantity),
                        state: OrderState::Processing,
                        ..r
                    },
                    index + 1,
                )
            },
            EventView::Rows(Err(m)) => halted_expect(r, "Handling order failed"@, m),
            _ => halted_unexpected(r),
        },
        Phase::Customer => match e {
            EventView::Executed(Ok(_)) => (at(r, Phase::DetailCustomer), run_query(customer_id_sql(r.order.customer))),
            EventView::Executed(Err(m)) => halted_expect(r, "Customer data insert failed"@, m),
            _ => halted_unexpected(r),
        },
        Phase::DetailCustomer => match e {
            EventView::Rows(Ok(rows)) => match spec_first_int(rows, Lookup::CustomerId) {
                Ok(id) => (
                    at(r, Phase::Detail),
                    run_execute(detail_sql(r.start_time, r.tally, r.order.order_total, id)),
                ),
                Err(err) => halted(r, unwrap_err_panic(err.spec_prefix()), true),
            },
            EventView::Rows(Err(m)) => halted_unwrap(r, m),
            _ => halted_unexpected(r),
        },
        Phase::Detail => match e {
            EventView::Executed(Ok(_)) => spec_item(r, 0),
            EventView::Executed(Err(m)) => halted_expect(r, "Order data insert failed"@, m),
            _ => halted_unexpected(r),
        },
        Phase::ItemCustomer { index, quantity } => match e {
            EventView::Rows(Ok(rows)) => match spec_first_int(rows, Lookup::CustomerId) {
                Ok(id) => (
                    at(r, Phase::ItemOrder { index, quantity }),
                    run_query(order_id_sql(id, r.start_time)),
                ),
                Err(err) => halted(r, unwrap_err_panic(err.spec_prefix()), true),
            },
            EventView::Rows(Err(m)) => halted_unwrap(r, m),
            _ => halted_unexpected(r),
        },
        Phase::ItemOrder { index, quantity } => match e {
            EventView::Rows(Ok(rows)) => match spec_first_int(rows, Lookup::OrderId) {
                Ok(id) => (
                    at(r, Phase::ItemInsert { index }),
                    run_execute(item_sql(id, r.order.checkout[index as int].id, quantity, r.start_time)),
                ),
                Err(err) => halted(r, unwrap_err_panic(err.spec_prefix()), true),
            },
            EventView::Rows(Err(m)) => halted_unwrap(r, m),
            _ => halted_unexpected(r),
        },
        Phase::ItemInsert { index } => match e {
            EventView::Executed(Ok(_)) => spec_item(r, index + 1),
            EventView::Executed(Err(m)) => halted_expect(r, "failed insert order items."@, m),
            _ => halted_unexpected(r),
        },
        Phase::Finished => halted_unexpected(r),
    }
}

/// A run's indices point into the checkout, and its tally names each product once.
pub open spec fn run_wf(r: OrderRunView) -> bool {
    &&& r.order.checkout.len() < usize::MAX
    &&& tally_unique(r.tally)
    &&& match r.phase {
        Phase::Stock { index } => index < r.order.checkout.len(),
        Phase::Restock { index, remaining } => index < r.order.checkout.len(),
        Phase::ItemCustomer { index, quantity } => index < r.order.checkout.len(),
        Phase::ItemOrder { index, quantity } => index < r.order.checkout.len(),
        Phase::ItemInsert { index } => index < r.order.checkout.len(),
        _ => true,
    }
}


/// The tally as names and quantities.
pub open spec fn tally_view(t: Seq<(String, i32)>) -> Seq<(Seq<char>, i32)> {
    t.map_values(|e: (String, i32)| (e.0@, e.1))
}

proof fn lemma_tally_get_at(t: Seq<(Seq<char>, i32)>, i: int)
    requires
        tally_unique(t),
        0 <= i < t.len(),
    ensures
        tally_get(t, t[i].0) == Some(t[i].1),
{
    let name = t[i].0;
    assert(exists|k: int| 0 <= k < t.len() && #[trigger] t[k].0 == name);
    let k = choose|k: int| 0 <= k < t.len() && #[trigger] t[k].0 == name;
    if k != i {
        if k < i {
            assert(t[k].0 != t[i].0);
        } else {
            assert(t[i].0 != t[k].0);
        }
    }
}

/// The place of `name` in the tally.
fn tally_find(t: &Vec<(String, i32)>, name: &String) -> (r: Option<usize>)
    requires
        tally_unique(tally_view(t@)),
    ensures
        match r {
            Some(i) => i < t@.len() && t@[i as int].0@ == name@ && tally_get(tally_view(t@), name@) == Some(t@[i as int].1),
            None => tally_get(tally_view(t@), name@) is None
                && forall|k: int| 0 <= k < t@.len() ==> #[trigger] t@[k].0@ != name@,
        },
{
    let ghost tv = tally_view(t@);
    let mut i: usize = 0;
    while i < t.len()
        invariant
            i <= t@.len(),
            tv == tally_view(t@),
            tally_unique(tv),
            forall|k: int| 0 <= k < i ==> #[trigger] t@[k].0@ != name@,
        decreases t@.len() - i,
    {
        if t[i].0 == *name {
            proof {
                assert(tv[i as int] == (t@[i as int].0@, t@[i as int].1));
                lemma_tally_get_at(tv, i as int);
            }
            return Some(i);
        }
        i = i + 1;
    }
    proof {
        assert forall|k: int| 0 <= k < tv.len() implies #[trigger] tv[k].0 != name@ by {
            assert(tv[k] == (t@[k].0@, t@[k].1));
        }
    }
    None
}

/// Sets the tallied quantity of `name` to `q`.
fn tally_insert(t: &mut Vec<(String, i32)>, name: &String, q: i32)
    requires
        tally_unique(tally_view(old(t)@)),
    ensures
        tally_view(final(t)@) == tally_set(tally_view(old(t)@), name@, q),
        tally_unique(tally_view(final(t)@)),
{
    let ghost tv = tally_view(t@);
    match tally_find(t, name) {
        Some(i) => {
            proof {
                assert(tv[i as int].0 == name@);
                let k = choose|k: int| 0 <= k < tv.len() && #[trigger] tv[k].0 == name@;
                if k != i {
                    if k < i {
                        assert(tv[k].0 != tv[i as int].0);
                    } else {
                        assert(tv[i as int].0 != tv[k].0);
                    }
                }
            }
            t.set(i, (name.clone(), q));
            proof {
                assert(tally_view(t@) =~= tv.update(i as int, (name@, q)));
            }
        },
        None => {
            t.push((name.clone(), q));
            proof {
                assert(tally_view(t@) =~= tv.push((name@, q)));
                assert(!(exists|k: int| 0 <= k < tv.len() && #[trigger] tv[k].0 == name@)) by {
                    assert forall|k: int| 0 <= k < tv.len() implies #[trigger] tv[k].0 != name@ by {
                        assert(tv[k] == (t@[k].0@, t@[k].1));
                    }
                }
            }
        },
    }
}

/// The tally as a JSON object.
fn tally_to_json(t: &Vec<(String, i32)>) -> (r: String)
    ensures
        r@ == tally_json(tally_view(t@)),
{
    let ghost tv = tally_view(t@);
    let mut body = String::new();
    let mut i: usize = 0;
    while i < t.len()
        invariant
            i <= t@.len(),
            tv == tally_view(t@),
            body@ == json_entries(tv.take(i as int)),
        decreases t@.len() - i,
    {
        let entry = json_quote(t[i].0.as_str()).concat(":").concat(decimal_i64(t[i].1 as i64).as_str());
        proof {
            reveal_strlit(":");
            reveal_strlit(",");
            assert(tv[i as int] == (t@[i as int].0@, t@[i as int].1));
            assert(tv.take(i + 1).drop_last() =~= tv.take(i as int));
            assert(entry@ =~= json_entry(tv[i as int]));
        }
        if i == 0 {
            body = entry;
        } else {
            body = body.concat(",").concat(entry.as_str());
        }
        proof {
            assert(tv.take(i + 1).last() == tv[i as int]);
        }
        i = i + 1;
    }
    proof {
        assert(tv.take(t@.len() as int) =~= tv);
    }
    String::from_str("{").concat(body.as_str()).concat("}")
}

/// The answer of the lookup `which`, from its rows.
pub fn first_int(rows: &Vec<Vec<DbValue>>, which: Lookup) -> (r: Result<i32, LookupError>)
    ensures
        r == spec_first_int(rows@.map_values(|row: Vec<DbValue>| row@), which),
{
    let ghost rv = rows@.map_values(|row: Vec<DbValue>| row@);
    if rows.len() == 0 {
        return Ok(0);
    }
    assert(rv[0] == rows@[0]@);
    if rows[0].len() == 0 {
        return Ok(0);
    }
    match &rows[0][0] {
        DbValue::Int32(v) => Ok(*v),
        _ => Err(LookupError { which }),
    }
}

/// The lookup of the stock of a line's product.
pub fn stock_statement(line: &Cart) -> (r: String)
    ensures
        r@ == stock_sql(line@),
{
    String::from_str("SELECT quantity FROM products.\"product_details\" WHERE name = '")
        .concat(line.name.as_str())
        .concat("' AND article_number = '")
        .concat(decimal_i64(line.id as i64).as_str())
        .concat("'")
}

/// The statement that sets the stock of product `name` to `remaining`.
pub fn restock_statement(remaining: i32, name: &String) -> (r: String)
    ensures
        r@ == restock_sql(remaining, name@),
{
    String::from_str("UPDATE products.\"product_details\" SET quantity = '")
        .concat(decimal_i64(remaining as i64).as_str())
        .concat("' WHERE name = '")
        .concat(name.as_str())
        .concat("'")
}

/// The record of the customer, or of their last order time.
pub fn customer_statement(c: &Customer, start_time: &String) -> (r: String)
    ensures
        r@ == customer_sql(c@, start_time@),
{
    String::from_str(
        "INSERT INTO products.\"customers\" (name, email, phone, address, city, pin, last_ordered) VALUES ('",
    ).concat(c.name.as_str()).concat("', '").concat(c.email.as_str()).concat("', '").concat(c.phone.as_str()).concat(
        "', '",
    ).concat(c.address.as_str()).concat("', '").concat(c.city.as_str()).concat("', '").concat(c.pin.as_str()).concat(
        "', '",
    ).concat(start_time.as_str()).concat(
        "') ON CONFLICT (name, email) DO UPDATE SET last_ordered = EXCLUDED.last_ordered",
    )
}

/// The lookup of the customer's id.
pub fn customer_id_statement(c: &Customer) -> (r: String)
    ensures
        r@ == customer_id_sql(c@),
{
    String::from_str("SELECT id FROM products.\"customers\" WHERE name = '")
        .concat(c.name.as_str())
        .concat("' AND email = '")
        .concat(c.email.as_str())
        .concat("'")
}

/// The lookup of the order's id, by customer and time.
pub fn order_id_statement(customer_id: i32, start_time: &String) -> (r: String)
    ensures
        r@ == order_id_sql(customer_id, start_time@),
{
    String::from_str("SELECT id FROM products.\"order_details\" WHERE customer_id = '")
        .concat(decimal_i64(customer_id as i64).as_str())
        .concat("' AND timestamp_created = '")
        .concat(start_time.as_str())
        .concat("'")
}

/// The record of the order as completed.
fn detail_statement(start_time: &String, tally: &Vec<(String, i32)>, total: &String, customer_id: i32) -> (r: String)
    ensures
        r@ == detail_sql(start_time@, tally_view(tally@), total@, customer_id),
{
    String::from_str(
        "INSERT INTO products.\"order_details\" (timestamp_created, total_products, total_price, customer_id, order_state) VALUES ('",
    ).concat(start_time.as_str()).concat("', '").concat(tally_to_json(tally).as_str()).concat("', '").concat(
        total.as_str(),
    ).concat("', '").concat(decimal_i64(customer_id as i64).as_str()).concat("', 'Completed')")
}

/// The record of one item of the order.
pub fn item_statement(order_id: i32, product_id: i32, quantity: i32, start_time: &String) -> (r: String)
    ensures
        r@ == item_sql(order_id, product_id, quantity, start_time@),
{
    String::from_str(
        "INSERT INTO products.\"order_items\" (order_id, product_id, order_quantity, timestamp_created) VALUES ('",
    ).concat(decimal_i64(order_id as i64).as_str()).concat("', '").concat(decimal_i64(product_id as i64).as_str()).concat(
        "', '",
    ).concat(decimal_i64(quantity as i64).as_str()).concat("', '").concat(start_time.as_str()).concat("')")
}

/// The headers of the order service's answers.
pub open spec fn order_headers() -> Seq<(Seq<char>, Seq<char>)> {
    seq![
        ("content-type"@, "application/json"@),
        ("Access-Control-Allow-Origin"@, "http://localhost:5173"@),
        ("Access-Control-Allow-Methods"@, "POST"@),
        ("Access-Control-Allow-Headers"@, "Content-Type"@),
    ]
}

/// The name of an order state.
pub open spec fn state_name(s: OrderState) -> Seq<char> {
    match s {
        OrderState::Checkout => "Checkout"@,
        OrderState::Pending => "Pending"@,
        OrderState::Processing => "Processing"@,
        OrderState::Canceled => "Canceled"@,
        OrderState::Completed => "Completed"@,
    }
}

/// The name of an order state, as Rust's debug notation writes it.
pub fn order_state_name(s: OrderState) -> (r: &'static str)
    ensures
        r@ == state_name(s),
{
    match s {
        OrderState::Checkout => "Checkout",
        OrderState::Pending => "Pending",
        OrderState::Processing => "Processing",
        OrderState::Canceled => "Canceled",
        OrderState::Completed => "Completed",
    }
}

fn order_response_headers() -> (r: Vec<Header>)
    ensures
        r@.map_values(|h: Header| (h.name@, h.value@)) == order_headers(),
{
    let mut v: Vec<Header> = Vec::new();
    v.push(Header { name: String::from_str("content-type"), value: String::from_str("application/json") });
    v.push(Header {
        name: String::from_str("Access-Control-Allow-Origin"),
        value: String::from_str("http://localhost:5173"),
    });
    v.push(Header { name: String::from_str("Access-Control-Allow-Methods"), value: String::from_str("POST") });
    v.push(Header { name: String::from_str("Access-Control-Allow-Headers"), value: String::from_str("Content-Type") });
    assert(v@.map_values(|h: Header| (h.name@, h.value@)) =~= order_headers());
    v
}

/// The answer to a handled order: how long it took (as written by the host)
/// and the state the order ended in.
pub fn order_response(elapsed: &str, s: OrderState) -> (r: Response)
    ensures
        r@ == response_view(
            200,
            order_headers(),
            BodyView::Text("Execution time: "@ + elapsed@ + ". Order: "@ + state_name(s)),
        ),
{
    let body = String::from_str("Execution time: ").concat(elapsed).concat(". Order: ").concat(order_state_name(s));
    Response { status: 200, headers: order_response_headers(), body: Body::Text(body) }
}

/// The answer to a request whose body is not an order, with the reason.
pub fn invalid_order_response(reason: &str) -> (r: Response)
    ensures
        r@ == response_view(400, order_headers(), BodyView::Text("Invalid request body: "@ + reason@)),
{
    let body = String::from_str("Invalid request body: ").concat(reason);
    Response { status: 400, headers: order_response_headers(), body: Body::Text(body) }
}

/// The answer names the order's final state as its variant is written in
/// Rust (`Checkout`, `Pending`, `Processing`, `Canceled`, `Completed`), and
/// distinct states get distinct names, so the answer's text tells which state
/// the order ended in.
pub proof fn law_state_names(s: OrderState, t: OrderState)
    ensures
        state_name(OrderState::Checkout) == "Checkout"@,
        state_name(OrderState::Pending) == "Pending"@,
        state_name(OrderState::Processing) == "Processing"@,
        state_name(OrderState::Canceled) == "Canceled"@,
        state_name(OrderState::Completed) == "Completed"@,
        state_name(s) == state_name(t) ==> s == t,
{
    reveal_strlit("Checkout");
    reveal_strlit("Pending");
    reveal_strlit("Processing");
    reveal_strlit("Canceled");
    reveal_strlit("Completed");
    if state_name(s) == state_name(t) && s != t {
        let a = state_name(s);
        let b = state_name(t);
        assert(a.len() == b.len());
        assert(a[1] == b[1]);
        assert(a[2] == b[2]);
    }
}

/// A run moves on to writing a product's stock only with a positive remainder:
/// the stock read for that line minus the ordered quantity.
pub proof fn law_restock_is_positive(r: OrderRunView, e: EventView)
    requires
        run_wf(r),
        spec_advance(r, e).0.phase is Restock,
    ensures
        ({
            let (next, step) = spec_advance(r, e);
            let index = next.phase->Restock_index;
            let remaining = next.phase->Restock_remaining;
            &&& remaining > 0
            &&& r.phase == (Phase::Stock { index })
            &&& rows_of(e) matches Ok(rows) && spec_first_int(rows, Lookup::ArticleQuantity) matches Ok(stock)
                && remaining == stock - r.order.checkout[index as int].quantity
            &&& step == run_query(restock_sql(remaining, r.order.checkout[index as int].name))
        }),
{
}

/// The state after a line depends on that line alone: a line whose stock does
/// not cover it cancels the order, whatever the earlier lines did.
pub proof fn law_uncovered_line_cancels(r: OrderRunView, rows: Seq<Seq<DbValue>>, stock: i32)
    requires
        run_wf(r),
        r.phase is Stock,
        spec_first_int(rows, Lookup::ArticleQuantity) == Ok::<i32, LookupError>(stock),
        i32::MIN <= stock - r.order.checkout[r.phase->Stock_index as int].quantity <= 0,
    ensures
        spec_advance(r, EventView::Rows(Ok(rows))).0.state == OrderState::Canceled,
{
}

/// The state after a line depends on that line alone: once a line's stock is
/// written, the order is processing, whatever the earlier lines did.
pub proof fn law_covered_line_processes(r: OrderRunView, rows: Seq<Seq<DbValue>>)
    requires
        run_wf(r),
        r.phase is Restock,
    ensures
        spec_advance(r, EventView::Rows(Ok(rows))).0.state == OrderState::Processing,
{
}

/// The customer and order records are written only for a processing order.
pub proof fn law_records_only_processing(r: OrderRunView, e: EventView)
    requires
        run_wf(r),
        !(r.phase is Customer),
        spec_advance(r, e).0.phase is Customer,
    ensures
        spec_advance(r, e).0.state == OrderState::Processing,
        spec_advance(r, e).1 == run_execute(customer_sql(r.order.customer, r.start_time)),
{
}

/// A run never ends with the order still processing: a processing order is
/// either completed or the service stops.
pub proof fn law_never_done_processing(r: OrderRunView, e: EventView)
    requires
        run_wf(r),
    ensures
        spec_advance(r, e).1 != OrderStepView::Done(OrderState::Processing),
        spec_advance(r, e).1 == OrderStepView::Done(OrderState::Completed) ==> r.phase is Detail
            || r.phase is ItemInsert,
{
}

/// An order with an empty checkout is done at once, pending, without a statement.
pub proof fn law_empty_checkout_pending(order: OrderView, start_time: Seq<char>)
    requires
        order.checkout.len() == 0,
    ensures
        spec_begin(order, start_time).1 == OrderStepView::Done(OrderState::Pending),
{
}

/// Every tallied product is a line of the checkout, with that line's quantity.
pub open spec fn tally_from_checkout(r: OrderRunView) -> bool {
    forall|k: int| 0 <= k < r.tally.len() ==> exists|j: int|
        0 <= j < r.order.checkout.len() && #[trigger] r.order.checkout[j].name == #[trigger] r.tally[k].0
            && r.order.checkout[j].quantity == r.tally[k].1
}

proof fn lemma_tally_set_from_checkout(r: OrderRunView, j: int)
    requires
        tally_from_checkout(r),
        0 <= j < r.order.checkout.len(),
    ensures
        tally_from_checkout(OrderRunView {
            tally: tally_set(r.tally, r.order.checkout[j].name, r.order.checkout[j].quantity),
            ..r
        }),
{
    let name = r.order.checkout[j].name;
    let q = r.order.checkout[j].quantity;
    let t2 = tally_set(r.tally, name, q);
    let r2 = OrderRunView { tally: t2, ..r };
    assert forall|k: int| 0 <= k < t2.len() implies exists|jj: int|
        0 <= jj < r2.order.checkout.len() && #[trigger] r2.order.checkout[jj].name == #[trigger] t2[k].0
            && r2.order.checkout[jj].quantity == t2[k].1 by {
        if t2[k] == (name, q) {
            assert(r2.order.checkout[j].name == t2[k].0);
        } else {
            assert(k < r.tally.len());
            assert(t2[k] == r.tally[k]);
            let jj = choose|jj: int| 0 <= jj < r.order.checkout.len() && #[trigger] r.order.checkout[jj].name
                == #[trigger] r.tally[k].0 && r.order.checkout[jj].quantity == r.tally[k].1;
            assert(r2.order.checkout[jj].name == t2[k].0);
        }
    }
}

/// The ordered products that a run tallies, and writes with the order, are
/// lines of the checkout with their ordered quantities; every step keeps this.
pub proof fn law_tally_from_checkout(r: OrderRunView, e: EventView)
    requires
        run_wf(r),
        tally_from_checkout(r),
    ensures
        tally_from_checkout(spec_advance(r, e).0),
{
    if let Phase::Restock { index, remaining } = r.phase {
        if let EventView::Rows(Ok(_)) = e {
            let j = index as int;
            lemma_tally_set_from_checkout(r, j);
            let r1 = OrderRunView {
                tally: tally_set(r.tally, r.order.checkout[j].name, r.order.checkout[j].quantity),
                state: OrderState::Processing,
                ..r
            };
            assert(tally_from_checkout(r1));
        }
    }
}

/// An upper bound on the statements a run still asks for.
pub open spec fn statements_left(r: OrderRunView) -> int {
    let n = r.order.checkout.len() as int;
    match r.phase {
        Phase::Stock { index } => 2 * (n - index) + 3 + 3 * n,
        Phase::Restock { index, remaining } => 2 * (n - index) - 1 + 3 + 3 * n,
        Phase::Customer => 3 + 3 * n,
        Phase::DetailCustomer => 2 + 3 * n,
        Phase::Detail => 1 + 3 * n,
        Phase::ItemCustomer { index, quantity } => 3 * (n - index),
        Phase::ItemOrder { index, quantity } => 3 * (n - index) - 1,
        Phase::ItemInsert { index } => 3 * (n - index) - 2,
        Phase::Finished => 0,
    }
}

/// Every run ends: each step either ends the run or leaves fewer statements to
/// ask for.
pub proof fn law_run_ends(r: OrderRunView, e: EventView)
    requires
        run_wf(r),
    ensures
        0 <= statements_left(r),
        spec_advance(r, e).0.phase == Phase::Finished
            || 0 <= statements_left(spec_advance(r, e).0) < statements_left(r),
{
}

/// The run on `order`, begun at the time written `start_time`, after it is
/// handed the events `es` in turn: each event answers the step before it, and
/// once a step ends the run (done or stopped) the events after it are not
/// looked at.
pub open spec fn run_events(order: OrderView, start_time: Seq<char>, es: Seq<EventView>) -> (OrderRunView, OrderStepView)
    decreases es.len(),
{
    if es.len() == 0 {
        spec_begin(order, start_time)
    } else {
        let prev = run_events(order, start_time, es.drop_last());
        if prev.1 is Run {
            spec_advance(prev.0, es.last())
        } else {
            prev
        }
    }
}

/// The number of lines that a run has dealt with.
pub open spec fn lines_done(r: OrderRunView) -> int {
    match r.phase {
        Phase::Stock { index } => index as int,
        Phase::Restock { index, remaining } => index as int,
        _ => r.order.checkout.len() as int,
    }
}

/// Event `k` handed the run the stock of line `line`, and that stock did not
/// cover the line.
pub open spec fn uncovered_at(order: OrderView, start_time: Seq<char>, es: Seq<EventView>, k: int, line: int) -> bool {
    let r = run_events(order, start_time, es.take(k)).0;
    &&& 0 <= k < es.len()
    &&& r.phase == (Phase::Stock { index: line as usize })
    &&& es[k] matches EventView::Rows(Ok(rows)) && spec_first_int(rows, Lookup::ArticleQuantity) matches Ok(stock)
        && stock - order.checkout[line].quantity <= 0
}

/// Event `k` confirmed that the new stock of line `line` was written.
pub open spec fn restocked_at(order: OrderView, start_time: Seq<char>, es: Seq<EventView>, k: int, line: int) -> bool {
    let r = run_events(order, start_time, es.take(k)).0;
    &&& 0 <= k < es.len()
    &&& r.phase is Restock
    &&& r.phase->Restock_index == line
    &&& es[k] matches EventView::Rows(Ok(_))
}

/// The line a run stands at lies in the checkout.
pub open spec fn indices_ok(r: OrderRunView) -> bool {
    match r.phase {
        Phase::Stock { index } => index < r.order.checkout.len(),
        Phase::Restock { index, remaining } => index < r.order.checkout.len(),
        Phase::ItemCustomer { index, quantity } => index < r.order.checkout.len(),
        Phase::ItemOrder { index, quantity } => index < r.order.checkout.len(),
        Phase::ItemInsert { index } => index < r.order.checkout.len(),
        _ => true,
    }
}

/// What holds of a run after any events, as long as the service has not stopped.
pub open spec fn run_inv(order: OrderView, start_time: Seq<char>, es: Seq<EventView>) -> bool {
    let (r, s) = run_events(order, start_time, es);
    let n = lines_done(r);
    &&& r.order == order
    &&& indices_ok(r)
    &&& (s is Run <==> !(r.phase is Finished))
    &&& s matches OrderStepView::Done(st) ==> st == r.state
    &&& !(s is Halt) ==> {
        &&& 0 <= n <= order.checkout.len()
        &&& (r.phase is Stock || r.phase is Restock) ==> n < order.checkout.len()
        &&& n == 0 ==> r.state == OrderState::Pending
        &&& n > 0 ==> (r.state == OrderState::Canceled || r.state == OrderState::Processing
            || r.state == OrderState::Completed)
        &&& (n > 0 && r.state == OrderState::Canceled) ==> exists|k: int| #[trigger] uncovered_at(order, start_time, es, k, n - 1)
        &&& (n > 0 && r.state != OrderState::Canceled) ==> exists|k: int| #[trigger] restocked_at(order, start_time, es, k, n - 1)
        &&& r.state == OrderState::Completed ==> r.phase is Finished
        &&& r.phase is Finished ==> r.state != OrderState::Processing
        &&& (r.phase is Customer || r.phase is DetailCustomer || r.phase is Detail || r.phase is ItemCustomer
            || r.phase is ItemOrder || r.phase is ItemInsert) ==> r.state == OrderState::Processing
    }
}

proof fn lemma_prefix_events(order: OrderView, start_time: Seq<char>, es: Seq<EventView>, k: int)
    requires
        0 <= k < es.len(),
    ensures
        run_events(order, start_time, es.take(k)) == run_events(order, start_time, es.drop_last().take(k)),
        es[k] == es.drop_last()[k] || k == es.len() - 1,
{
    assert(es.take(k) =~= es.drop_last().take(k));
}

proof fn lemma_witnesses_carry(order: OrderView, start_time: Seq<char>, es: Seq<EventView>, line: int)
    requires
        es.len() > 0,
    ensures
        (exists|k: int| #[trigger] uncovered_at(order, start_time, es.drop_last(), k, line))
            ==> exists|k: int| #[trigger] uncovered_at(order, start_time, es, k, line),
        (exists|k: int| #[trigger] restocked_at(order, start_time, es.drop_last(), k, line))
            ==> exists|k: int| #[trigger] restocked_at(order, start_time, es, k, line),
{
    if exists|k: int| #[trigger] uncovered_at(order, start_time, es.drop_last(), k, line) {
        let k = choose|k: int| uncovered_at(order, start_time, es.drop_last(), k, line);
        lemma_prefix_events(order, start_time, es, k);
        assert(uncovered_at(order, start_time, es, k, line));
    }
    if exists|k: int| #[trigger] restocked_at(order, start_time, es.drop_last(), k, line) {
        let k = choose|k: int| restocked_at(order, start_time, es.drop_last(), k, line);
        lemma_prefix_events(order, start_time, es, k);
        assert(restocked_at(order, start_time, es, k, line));
    }
}

proof fn lemma_begin_inv(order: OrderView, start_time: Seq<char>)
    requires
        order.checkout.len() < usize::MAX,
    ensures
        run_inv(order, start_time, Seq::empty()),
{
    let es = Seq::<EventView>::empty();
    assert(run_events(order, start_time, es) == spec_begin(order, start_time));
}

#[verifier::rlimit(50)]
proof fn lemma_step_inv(order: OrderView, start_time: Seq<char>, es: Seq<EventView>)
    requires
        order.checkout.len() < usize::MAX,
        es.len() > 0,
        run_inv(order, start_time, es.drop_last()),
    ensures
        run_inv(order, start_time, es),
{
    let es0 = es.drop_last();
    let (p, ps) = run_events(order, start_time, es0);
    let n0 = lines_done(p);
    let e = es.last();
    let k = es0.len() as int;
    assert(es.take(k) =~= es0);
    assert(run_events(order, start_time, es) == (if ps is Run { spec_advance(p, e) } else { (p, ps) }));
    lemma_witnesses_carry(order, start_time, es, n0 - 1);
    let (r, s) = run_events(order, start_time, es);
    let n = lines_done(r);
    assert(r.order == order);
    assert(s is Run <==> !(r.phase is Finished));
    assert(s matches OrderStepView::Done(st) ==> st == r.state);
    if !(s is Halt) {
        assert(0 <= n <= order.checkout.len());
        assert((r.phase is Stock || r.phase is Restock) ==> n < order.checkout.len());
        assert(n == 0 ==> r.state == OrderState::Pending);
        assert(n > 0 ==> (r.state == OrderState::Canceled || r.state == OrderState::Processing
            || r.state == OrderState::Completed));
        if n > 0 {
            let fresh_cancel = ps is Run && p.phase is Stock && !(r.phase is Restock);
            let fresh_restock = ps is Run && p.phase is Restock;
            if fresh_cancel {
                assert(n - 1 == n0);
                assert(uncovered_at(order, start_time, es, k, n - 1));
            } else if fresh_restock {
                assert(n - 1 == n0);
                assert(restocked_at(order, start_time, es, k, n - 1));
            } else {
                assert(n == n0);
                assert(!(ps is Halt));
                assert(r.state == p.state || (r.state == OrderState::Completed && p.state == OrderState::Processing));
                if r.state == OrderState::Canceled {
                    assert(exists|j: int| #[trigger] uncovered_at(order, start_time, es0, j, n0 - 1));
                } else {
                    assert(exists|j: int| #[trigger] restocked_at(order, start_time, es0, j, n0 - 1));
                }
            }
        }
        assert((n > 0 && r.state == OrderState::Canceled) ==> exists|k: int| #[trigger] uncovered_at(order, start_time, es, k, n - 1));
        assert((n > 0 && r.state != OrderState::Canceled) ==> exists|k: int| #[trigger] restocked_at(order, start_time, es, k, n - 1));
        assert(r.state == OrderState::Completed ==> r.phase is Finished);
        assert(r.phase is Finished ==> r.state != OrderState::Processing);
    }
}

proof fn lemma_run_inv(order: OrderView, start_time: Seq<char>, es: Seq<EventView>)
    requires
        order.checkout.len() < usize::MAX,
    ensures
        run_inv(order, start_time, es),
    decreases es.len(),
{
    if es.len() == 0 {
        lemma_begin_inv(order, start_time);
        assert(es =~= Seq::<EventView>::empty());
    } else {
        lemma_run_inv(order, start_time, es.drop_last());
        lemma_step_inv(order, start_time, es);
    }
}

proof fn lemma_step_progress(r: OrderRunView, e: EventView)
    requires
        indices_ok(r),
        r.order.checkout.len() < usize::MAX,
    ensures
        statements_left(spec_advance(r, e).0) <= statements_left(r),
{
}

proof fn lemma_left_monotone(order: OrderView, start_time: Seq<char>, es: Seq<EventView>, j: int, k: int)
    requires
        order.checkout.len() < usize::MAX,
        0 <= j <= k <= es.len(),
    ensures
        statements_left(run_events(order, start_time, es.take(k)).0)
            <= statements_left(run_events(order, start_time, es.take(j)).0),
    decreases k - j,
{
    if k > j {
        lemma_left_monotone(order, start_time, es, j, k - 1);
        let pre = es.take(k);
        assert(pre.drop_last() =~= es.take(k - 1));
        lemma_run_inv(order, start_time, es.take(k - 1));
        let prev = run_events(order, start_time, es.take(k - 1));
        if prev.1 is Run {
            lemma_step_progress(prev.0, pre.last());
        }
    }
}

/// The step that answers event `k` of a run that is at a statement.
proof fn lemma_event_step(order: OrderView, start_time: Seq<char>, es: Seq<EventView>, k: int)
    requires
        order.checkout.len() < usize::MAX,
        0 <= k < es.len(),
        !(run_events(order, start_time, es.take(k)).0.phase is Finished),
    ensures
        run_events(order, start_time, es.take(k + 1))
            == spec_advance(run_events(order, start_time, es.take(k)).0, es[k]),
        run_events(order, start_time, es.take(k)).0.order == order,
{
    lemma_run_inv(order, start_time, es.take(k));
    assert(es.take(k + 1).drop_last() =~= es.take(k));
    assert(es.take(k + 1).last() == es[k]);
}

/// The last line is dealt with once: its stock is not both found short and
/// written.
proof fn lemma_last_line_once(order: OrderView, start_time: Seq<char>, es: Seq<EventView>, k1: int, k2: int)
    requires
        order.checkout.len() < usize::MAX,
        order.checkout.len() > 0,
        uncovered_at(order, start_time, es, k1, order.checkout.len() - 1),
    ensures
        !restocked_at(order, start_time, es, k2, order.checkout.len() - 1),
{
    let n = order.checkout.len() as int;
    if restocked_at(order, start_time, es, k2, n - 1) {
        lemma_event_step(order, start_time, es, k1);
        lemma_event_step(order, start_time, es, k2);
        let after1 = run_events(order, start_time, es.take(k1 + 1)).0;
        let after2 = run_events(order, start_time, es.take(k2 + 1)).0;
        assert(statements_left(after1) == 0);
        assert(statements_left(after2) == 3 + 3 * n);
        if k1 < k2 {
            lemma_left_monotone(order, start_time, es, k1 + 1, k2);
            assert(statements_left(run_events(order, start_time, es.take(k2)).0) == 2 + 3 * n);
        } else {
            assert(k2 < k1);
            lemma_left_monotone(order, start_time, es, k2 + 1, k1);
            assert(statements_left(run_events(order, start_time, es.take(k1)).0) == 5 + 3 * n);
        }
    }
}

/// The outcome of a whole run is set by its last line: whatever the events,
/// a run that is done never leaves the order processing; it leaves it pending
/// exactly when the checkout is empty; canceled exactly when the stock handed
/// back for the last line did not cover it; and completed exactly when the
/// new stock of the last line was written.
pub proof fn law_run_outcome(order: OrderView, start_time: Seq<char>, es: Seq<EventView>)
    requires
        order.checkout.len() < usize::MAX,
    ensures
        run_events(order, start_time, es).1 matches OrderStepView::Done(st) ==> {
            let n = order.checkout.len() as int;
            &&& st != OrderState::Processing
            &&& st != OrderState::Checkout
            &&& (st == OrderState::Pending <==> n == 0)
            &&& n > 0 ==> (st == OrderState::Canceled
                <==> exists|k: int| #[trigger] uncovered_at(order, start_time, es, k, n - 1))
            &&& n > 0 ==> (st == OrderState::Completed
                <==> exists|k: int| #[trigger] restocked_at(order, start_time, es, k, n - 1))
        },
{
    lemma_run_inv(order, start_time, es);
    let n = order.checkout.len() as int;
    if n > 0 {
        if exists|k: int| #[trigger] uncovered_at(order, start_time, es, k, n - 1) {
            if exists|k: int| #[trigger] restocked_at(order, start_time, es, k, n - 1) {
                let k1 = choose|k: int| #[trigger] uncovered_at(order, start_time, es, k, n - 1);
                let k2 = choose|k: int| #[trigger] restocked_at(order, start_time, es, k, n - 1);
                lemma_last_line_once(order, start_time, es, k1, k2);
            }
        }
    }
}

impl OrderRun {
    pub closed spec fn wf(&self) -> bool {
        run_wf(self@)
    }

    /// The state the order is in.
    pub fn state(&self) -> (r: OrderState)
        ensures
            r == self@.state,
    {
        self.state
    }

    /// Where the run stands.
    pub fn phase(&self) -> (r: Phase)
        ensures
            r == self@.phase,
    {
        self.phase
    }

    proof fn lemma_line_view(&self, i: int)
        requires
            0 <= i < self.order.checkout@.len(),
        ensures
            self@.order.checkout[i] == self.order.checkout@[i]@,
            self@.order.checkout.len() == self.order.checkout@.len(),
    {
    }

    fn halt(self, message: String, with_value: bool) -> (r: (OrderRun, OrderStep))
        requires
            self.wf(),
        ensures
            r.0.wf(),
            (r.0@, r.1@) == halted(self@, message@, with_value),
    {
        let mut run = self;
        run.phase = Phase::Finished;
        (run, OrderStep::Halt(OrderHalt { message, with_value }))
    }

    fn halt_unexpected(self) -> (r: (OrderRun, OrderStep))
        requires
            self.wf(),
        ensures
            r.0.wf(),
            (r.0@, r.1@) == halted_unexpected(self@),
    {
        self.halt(String::from_str("unexpected event"), false)
    }

    fn after_lines(self) -> (r: (OrderRun, OrderStep))
        requires
            self.wf(),
        ensures
            r.0.wf(),
            (r.0@, r.1@) == spec_after_lines(self@),
    {
        let mut run = self;
        if run.state == OrderState::Processing {
            let sql = customer_statement(&run.order.customer, &run.start_time);
            run.phase = Phase::Customer;
            (run, OrderStep::Run(Statement::Execute { sql, params: Vec::new() }))
        } else {
            run.phase = Phase::Finished;
            let st = run.state;
            (run, OrderStep::Done(st))
        }
    }

    fn line(self, i: usize) -> (r: (OrderRun, OrderStep))
        requires
            self.wf(),
            i <= self.order.checkout@.len(),
        ensures
            r.0.wf(),
            (r.0@, r.1@) == spec_line(self@, i as int),
    {
        if i < self.order.checkout.len() {
            let sql = stock_statement(&self.order.checkout[i]);
            proof {
                self.lemma_line_view(i as int);
            }
            let mut run = self;
            run.phase = Phase::Stock { index: i };
            (run, OrderStep::Run(Statement::Query { sql, params: Vec::new() }))
        } else {
            self.after_lines()
        }
    }

    fn item(self, i: usize) -> (r: (OrderRun, OrderStep))
        requires
            self.wf(),
            i <= self.order.checkout@.len(),
        ensures
            r.0.wf(),
            (r.0@, r.1@) == spec_item(self@, i as int),
    {
        if i < self.order.checkout.len() {
            proof {
                self.lemma_line_view(i as int);
            }
            match tally_find(&self.tally, &self.order.checkout[i].name) {
                None => self.halt(unwrap_none_panic_text(), false),
                Some(k) => {
                    let q = self.tally[k].1;
                    let sql = customer_id_statement(&self.order.customer);
                    let mut run = self;
                    run.phase = Phase::ItemCustomer { index: i, quantity: q };
                    (run, OrderStep::Run(Statement::Query { sql, params: Vec::new() }))
                },
            }
        } else {
            let mut run = self;
            run.phase = Phase::Finished;
            run.state = OrderState::Completed;
            (run, OrderStep::Done(OrderState::Completed))
        }
    }

    /// Starts a run on `order`; `start_time` is the written form of the moment
    /// the request came in.
    pub fn begin(order: Order, start_time: String) -> (r: (OrderRun, OrderStep))
        requires
            order.checkout@.len() < usize::MAX,
        ensures
            r.0.wf(),
            (r.0@, r.1@) == spec_begin(order@, start_time@),
    {
        let run = OrderRun {
            order,
            start_time,
            tally: Vec::new(),
            state: OrderState::Pending,
            phase: Phase::Finished,
        };
        proof {
            assert(tally_view(run.tally@) =~= Seq::<(Seq<char>, i32)>::empty());
        }
        run.line(0)
    }

    fn on_stock(self, index: usize, e: &Event) -> (r: (OrderRun, OrderStep))
        requires
            self.wf(),
            self@.phase == (Phase::Stock { index }),
        ensures
            r.0.wf(),
            (r.0@, r.1@) == spec_advance(self@, e@),
    {
        proof {
            self.lemma_line_view(index as int);
        }
        match e {
            Event::Rows(Ok(rows)) => match first_int(rows, Lookup::ArticleQuantity) {
                Err(err) => self.halt(expect_panic_text("Product quantity query failed", err.prefix().as_str()), true),
                Ok(stock) => {
                    let q = self.order.checkout[index].quantity;
                    let remaining: i64 = stock as i64 - q as i64;
                    if remaining < -2147483648i64 || remaining > 2147483647i64 {
                        self.halt(String::from_str("attempt to subtract with overflow"), false)
                    } else if remaining <= 0 {
                        let mut run = self;
                        run.state = OrderState::Canceled;
                        run.line(index + 1)
                    } else {
                        let sql = restock_statement(remaining as i32, &self.order.checkout[index].name);
                        let mut run = self;
                        run.phase = Phase::Restock { index, remaining: remaining as i32 };
                        (run, OrderStep::Run(Statement::Query { sql, params: Vec::new() }))
                    }
                },
            },
            Event::Rows(Err(m)) => self.halt(expect_panic_text("Product quantity query failed", m.as_str()), false),
            _ => self.halt_unexpected(),
        }
    }

    fn on_restock(self, index: usize, remaining: i32, e: &Event) -> (r: (OrderRun, OrderStep))
        requires
            self.wf(),
            self@.phase == (Phase::Restock { index, remaining }),
        ensures
            r.0.wf(),
            (r.0@, r.1@) == spec_advance(self@, e@),
    {
        proof {
            self.lemma_line_view(index as int);
        }
        match e {
            Event::Rows(Ok(_)) => {
                let name = self.order.checkout[index].name.clone();
                let q = self.order.checkout[index].quantity;
                let mut run = self;
                tally_insert(&mut run.tally, &name, q);
                run.state = OrderState::Processing;
                run.line(index + 1)
            },
            Event::Rows(Err(m)) => self.halt(expect_panic_text("Handling order failed", m.as_str()), false),
            _ => self.halt_unexpected(),
        }
    }

    fn on_detail_customer(self, e: &Event) -> (r: (OrderRun, OrderStep))
        requires
            self.wf(),
            self@.phase == Phase::DetailCustomer,
        ensures
            r.0.wf(),
            (r.0@, r.1@) == spec_advance(self@, e@),
    {
        match e {
            Event::Rows(Ok(rows)) => match first_int(rows, Lookup::CustomerId) {
                Ok(id) => {
                    let sql = detail_statement(&self.start_time, &self.tally, &self.order.order_total, id);
                    let mut run = self;
                    run.phase = Phase::Detail;
                    (run, OrderStep::Run(Statement::Execute { sql, params: Vec::new() }))
                },
                Err(err) => self.halt(unwrap_err_panic_text(err.prefix().as_str()), true),
            },
            Event::Rows(Err(m)) => self.halt(unwrap_err_panic_text(m.as_str()), false),
            _ => self.halt_unexpected(),
        }
    }

    fn on_item_customer(self, index: usize, quantity: i32, e: &Event) -> (r: (OrderRun, OrderStep))
        requires
            self.wf(),
            self@.phase == (Phase::ItemCustomer { index, quantity }),
        ensures
            r.0.wf(),
            (r.0@, r.1@) == spec_advance(self@, e@),
    {
        match e {
            Event::Rows(Ok(rows)) => match first_int(rows, Lookup::CustomerId) {
                Ok(id) => {
                    let sql = order_id_statement(id, &self.start_time);
                    let mut run = self;
                    run.phase = Phase::ItemOrder { index, quantity };
                    (run, OrderStep::Run(Statement::Query { sql, params: Vec::new() }))
                },
                Err(err) => self.halt(unwrap_err_panic_text(err.prefix().as_str()), true),
            },
            Event::Rows(Err(m)) => self.halt(unwrap_err_panic_text(m.as_str()), false),
            _ => self.halt_unexpected(),
        }
    }

    fn on_item_order(self, index: usize, quantity: i32, e: &Event) -> (r: (OrderRun, OrderStep))
        requires
            self.wf(),
            self@.phase == (Phase::ItemOrder { index, quantity }),
        ensures
            r.0.wf(),
            (r.0@, r.1@) == spec_advance(self@, e@),
    {
        proof {
            self.lemma_line_view(index as int);
        }
        match e {
            Event::Rows(Ok(rows)) => match first_int(rows, Lookup::OrderId) {
                Ok(id) => {
                    let sql = item_statement(id, self.order.checkout[index].id, quantity, &self.start_time);
                    let mut run = self;
                    run.phase = Phase::ItemInsert { index };
                    (run, OrderStep::Run(Statement::Execute { sql, params: Vec::new() }))
                },
                Err(err) => self.halt(unwrap_err_panic_text(err.prefix().as_str()), true),
            },
            Event::Rows(Err(m)) => self.halt(unwrap_err_panic_text(m.as_str()), false),
            _ => self.halt_unexpected(),
        }
    }

    fn step(self, e: &Event) -> (r: (OrderRun, OrderStep))
        requires
            self.wf(),
        ensures
            r.0.wf(),
            (r.0@, r.1@) == spec_advance(self@, e@),
    {
        match self.phase {
            Phase::Stock { index } => self.on_stock(index, e),
            Phase::Restock { index, remaining } => self.on_restock(index, remaining, e),
            Phase::Customer => match e {
                Event::Executed(Ok(_)) => {
                    let sql = customer_id_statement(&self.order.customer);
                    let mut run = self;
                    run.phase = Phase::DetailCustomer;
                    (run, OrderStep::Run(Statement::Query { sql, params: Vec::new() }))
                },
                Event::Executed(Err(m)) => self.halt(expect_panic_text("Customer data insert failed", m.as_str()), false),
                _ => self.halt_unexpected(),
            },
            Phase::DetailCustomer => self.on_detail_customer(e),
            Phase::Detail => match e {
                Event::Executed(Ok(_)) => self.item(0),
                Event::Executed(Err(m)) => self.halt(expect_panic_text("Order data insert failed", m.as_str()), false),
                _ => self.halt_unexpected(),
            },
            Phase::ItemCustomer { index, quantity } => self.on_item_customer(index, quantity, e),
            Phase::ItemOrder { index, quantity } => self.on_item_order(index, quantity, e),
            Phase::ItemInsert { index } => match e {
                Event::Executed(Ok(_)) => self.item(index + 1),
                Event::Executed(Err(m)) => self.halt(expect_panic_text("failed insert order items.", m.as_str()), false),
                _ => self.halt_unexpected(),
            },
            Phase::Finished => self.halt_unexpected(),
        }
    }

    /// The next step of the run, given what the host hands back for the last
    /// one. The inputs on which the service stops (a panic) are left out:
    /// `halt_reason` names them.
    pub fn advance(self, e: &Event) -> (r: (OrderRun, OrderStep))
        requires
            self.wf(),
            !(spec_advance(self@, e@).1 is Halt),
        ensures
            r.0.wf(),
            (r.0@, r.1@) == spec_advance(self@, e@),
    {
        self.step(e)
    }

    fn item_halt(&self, i: usize) -> (r: Option<OrderHalt>)
        requires
            self.wf(),
            i <= self.order.checkout@.len(),
        ensures
            r is Some <==> spec_item(self@, i as int).1 is Halt,
            r matches Some(h) ==> spec_item(self@, i as int).1 == OrderStepView::Halt(h.message@, h.with_value),
    {
        if i < self.order.checkout.len() {
            proof {
                self.lemma_line_view(i as int);
            }
            match tally_find(&self.tally, &self.order.checkout[i].name) {
                None => Some(OrderHalt { message: unwrap_none_panic_text(), with_value: false }),
                Some(_) => None,
            }
        } else {
            None
        }
    }

    fn lookup_halt(rows: &Result<Vec<Vec<DbValue>>, String>, which: Lookup) -> (r: Option<OrderHalt>)
        ensures
            r is Some <==> match rows {
                Ok(rs) => spec_first_int(rs@.map_values(|row: Vec<DbValue>| row@), which) is Err,
                Err(_) => true,
            },
            r matches Some(h) ==> h.with_value == (rows is Ok) && h.message@ == match rows {
                Ok(rs) => unwrap_err_panic(LookupError { which }.spec_prefix()),
                Err(m) => unwrap_err_panic(m@),
            },
    {
        match rows {
            Ok(rs) => match first_int(rs, which) {
                Ok(_) => None,
                Err(err) => Some(OrderHalt { message: unwrap_err_panic_text(err.prefix().as_str()), with_value: true }),
            },
            Err(m) => Some(OrderHalt { message: unwrap_err_panic_text(m.as_str()), with_value: false }),
        }
    }

    fn statement_halt(outcome: &Result<u64, String>, context: &str) -> (r: Option<OrderHalt>)
        ensures
            r is Some <==> outcome is Err,
            r matches Some(h) ==> !h.with_value && (outcome matches Err(m) && h.message@ == expect_panic(context@, m@)),
    {
        match outcome {
            Ok(_) => None,
            Err(m) => Some(OrderHalt { message: expect_panic_text(context, m.as_str()), with_value: false }),
        }
    }

    /// Where the service stops when the run is handed `e`, or `None` when it
    /// goes on.
    pub fn halt_reason(&self, e: &Event) -> (r: Option<OrderHalt>)
        requires
            self.wf(),
        ensures
            r is Some <==> spec_advance(self@, e@).1 is Halt,
            r matches Some(h) ==> spec_advance(self@, e@).1 == OrderStepView::Halt(h.message@, h.with_value),
    {
        let unexpected = Some(OrderHalt { message: String::from_str("unexpected event"), with_value: false });
        match self.phase {
            Phase::Stock { index } => {
                proof {
                    self.lemma_line_view(index as int);
                }
                match e {
                    Event::Rows(Ok(rows)) => match first_int(rows, Lookup::ArticleQuantity) {
                        Err(err) => Some(OrderHalt {
                            message: expect_panic_text("Product quantity query failed", err.prefix().as_str()),
                            with_value: true,
                        }),
                        Ok(stock) => {
                            let remaining: i64 = stock as i64 - self.order.checkout[index].quantity as i64;
                            if remaining < -2147483648i64 || remaining > 2147483647i64 {
                                Some(OrderHalt {
                                    message: String::from_str("attempt to subtract with overflow"),
                                    with_value: false,
                                })
                            } else {
                                None
                            }
                        },
                    },
                    Event::Rows(Err(m)) => Some(OrderHalt {
                        message: expect_panic_text("Product quantity query failed", m.as_str()),
                        with_value: false,
                    }),
                    _ => unexpected,
                }
            },
            Phase::Restock { .. } => match e {
                Event::Rows(Ok(_)) => None,
                Event::Rows(Err(m)) => Some(OrderHalt {
                    message: expect_panic_text("Handling order failed", m.as_str()),
                    with_value: false,
                }),
                _ => unexpected,
            },
            Phase::Customer => match e {
                Event::Executed(outcome) => Self::statement_halt(outcome, "Customer data insert failed"),
                _ => unexpected,
            },
            Phase::DetailCustomer => match e {
                Event::Rows(rows) => Self::lookup_halt(rows, Lookup::CustomerId),
                _ => unexpected,
            },
            Phase::Detail => match e {
                Event::Executed(Ok(_)) => self.item_halt(0),
                Event::Executed(outcome) => Self::statement_halt(outcome, "Order data insert failed"),
                _ => unexpected,
            },
            Phase::ItemCustomer { .. } => match e {
                Event::Rows(rows) => Self::lookup_halt(rows, Lookup::CustomerId),
                _ => unexpected,
            },
            Phase::ItemOrder { .. } => match e {
                Event::Rows(rows) => Self::lookup_halt(rows, Lookup::OrderId),
                _ => unexpected,
            },
            Phase::ItemInsert { index } => match e {
                Event::Executed(Ok(_)) => self.item_halt(index + 1),
                Event::Executed(outcome) => Self::statement_halt(outcome, "failed insert order items."),
                _ => unexpected,
            },
            Phase::Finished => unexpected,
        }
    }
}

} // verus!
