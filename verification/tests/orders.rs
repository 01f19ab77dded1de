use carts::cart::DbValue;
use carts::exchange::{Event, Statement};
use carts::http::{Body, Header};
use carts::orders::{
    first_int, invalid_order_response, order_response, Cart, Customer, Lookup, LookupError, Order, OrderHalt,
    OrderRun, OrderState, OrderStep, Phase,
};

fn halt(message: &str, with_value: bool) -> Option<OrderHalt> {
    Some(OrderHalt { message: message.to_string(), with_value })
}

const T: &str = "2024-05-01 10:00:00 UTC";

fn line(id: i32, name: &str, quantity: i32) -> Cart {
    Cart { id, name: name.to_string(), image: "img.png".to_string(), price: 10, quantity }
}

fn order(lines: Vec<Cart>) -> Order {
    Order {
        customer: Customer {
            name: "Ann".to_string(),
            email: "ann@example.com".to_string(),
            phone: "555".to_string(),
            address: "Street 1".to_string(),
            city: "Town".to_string(),
            pin: "123".to_string(),
        },
        checkout: lines,
        order_total: "30".to_string(),
        order_state: OrderState::Checkout,
    }
}

fn q(sql: &str) -> OrderStep {
    OrderStep::Run(Statement::Query { sql: sql.to_string(), params: vec![] })
}

fn x(sql: &str) -> OrderStep {
    OrderStep::Run(Statement::Execute { sql: sql.to_string(), params: vec![] })
}

fn int_rows(v: i32) -> Event {
    Event::Rows(Ok(vec![vec![DbValue::Int32(v)]]))
}

#[test]
fn completed_order_runs_every_statement() {
    let (run, step) = OrderRun::begin(order(vec![line(7, "Widget", 2), line(8, "Gad\"get", 1)]), T.to_string());
    assert_eq!(step, q("SELECT quantity FROM products.\"product_details\" WHERE name = 'Widget' AND article_number = '7'"));
    let (run, step) = run.advance(&int_rows(5));
    assert_eq!(run.phase(), Phase::Restock { index: 0, remaining: 3 });
    assert_eq!(step, q("UPDATE products.\"product_details\" SET quantity = '3' WHERE name = 'Widget'"));
    let (run, step) = run.advance(&Event::Rows(Ok(vec![])));
    assert_eq!(run.state(), OrderState::Processing);
    assert_eq!(step, q("SELECT quantity FROM products.\"product_details\" WHERE name = 'Gad\"get' AND article_number = '8'"));
    let (run, step) = run.advance(&int_rows(4));
    assert_eq!(step, q("UPDATE products.\"product_details\" SET quantity = '3' WHERE name = 'Gad\"get'"));
    let (run, step) = run.advance(&Event::Rows(Ok(vec![])));
    assert_eq!(
        step,
        x("INSERT INTO products.\"customers\" (name, email, phone, address, city, pin, last_ordered) VALUES ('Ann', 'ann@example.com', '555', 'Street 1', 'Town', '123', '2024-05-01 10:00:00 UTC') ON CONFLICT (name, email) DO UPDATE SET last_ordered = EXCLUDED.last_ordered")
    );
    let (run, step) = run.advance(&Event::Executed(Ok(1)));
    assert_eq!(step, q("SELECT id FROM products.\"customers\" WHERE name = 'Ann' AND email = 'ann@example.com'"));
    let (run, step) = run.advance(&int_rows(11));
    assert_eq!(
        step,
        x("INSERT INTO products.\"order_details\" (timestamp_created, total_products, total_price, customer_id, order_state) VALUES ('2024-05-01 10:00:00 UTC', '{\"Widget\":2,\"Gad\\\"get\":1}', '30', '11', 'Completed')")
    );
    let (run, step) = run.advance(&Event::Executed(Ok(1)));
    assert_eq!(run.phase(), Phase::ItemCustomer { index: 0, quantity: 2 });
    assert_eq!(step, q("SELECT id FROM products.\"customers\" WHERE name = 'Ann' AND email = 'ann@example.com'"));
    let (run, step) = run.advance(&int_rows(11));
    assert_eq!(
        step,
        q("SELECT id FROM products.\"order_details\" WHERE customer_id = '11' AND timestamp_created = '2024-05-01 10:00:00 UTC'")
    );
    let (run, step) = run.advance(&int_rows(21));
    assert_eq!(
        step,
        x("INSERT INTO products.\"order_items\" (order_id, product_id, order_quantity, timestamp_created) VALUES ('21', '7', '2', '2024-05-01 10:00:00 UTC')")
    );
    let (run, _) = run.advance(&Event::Executed(Ok(1)));
    let (run, _) = run.advance(&int_rows(11));
    let (run, step) = run.advance(&int_rows(22));
    assert_eq!(
        step,
        x("INSERT INTO products.\"order_items\" (order_id, product_id, order_quantity, timestamp_created) VALUES ('22', '8', '1', '2024-05-01 10:00:00 UTC')")
    );
    let (run, step) = run.advance(&Event::Executed(Ok(1)));
    assert_eq!(step, OrderStep::Done(OrderState::Completed));
    assert_eq!(run.state(), OrderState::Completed);
}

#[test]
fn tally_json_is_what_serde_json_writes() {
    let mut tally = std::collections::BTreeMap::new();
    tally.insert("Gad\"get", 1);
    assert_eq!(serde_json::to_string(&tally).unwrap(), "{\"Gad\\\"get\":1}");
}

#[test]
fn insufficient_stock_cancels() {
    let (run, _) = OrderRun::begin(order(vec![line(7, "Widget", 2)]), T.to_string());
    let (run, step) = run.advance(&int_rows(2));
    assert_eq!(step, OrderStep::Done(OrderState::Canceled));
    assert_eq!(run.state(), OrderState::Canceled);
}

#[test]
fn missing_product_has_no_stock() {
    let (run, _) = OrderRun::begin(order(vec![line(7, "Widget", 1)]), T.to_string());
    let (_, step) = run.advance(&Event::Rows(Ok(vec![])));
    assert_eq!(step, OrderStep::Done(OrderState::Canceled));
}

#[test]
fn empty_checkout_is_pending() {
    let (run, step) = OrderRun::begin(order(vec![]), T.to_string());
    assert_eq!(step, OrderStep::Done(OrderState::Pending));
    assert_eq!(run.state(), OrderState::Pending);
}

#[test]
fn last_line_decides_and_untallied_line_stops() {
    let (run, _) = OrderRun::begin(order(vec![line(7, "Widget", 5), line(8, "Gadget", 1)]), T.to_string());
    let (run, _) = run.advance(&int_rows(1));
    assert_eq!(run.state(), OrderState::Canceled);
    let (run, _) = run.advance(&int_rows(9));
    let (run, _) = run.advance(&Event::Rows(Ok(vec![])));
    assert_eq!(run.state(), OrderState::Processing);
    let (run, _) = run.advance(&Event::Executed(Ok(1)));
    let (run, _) = run.advance(&int_rows(3));
    assert_eq!(
        run.halt_reason(&Event::Executed(Ok(1))),
        halt("called `Option::unwrap()` on a `None` value", false)
    );
    assert_eq!(
        run.halt_reason(&Event::Executed(Err("E".to_string()))),
        halt("Order data insert failed: E", false)
    );
}

#[test]
fn failures_stop_the_service() {
    let (run, _) = OrderRun::begin(order(vec![line(7, "Widget", 1)]), T.to_string());
    assert_eq!(
        run.halt_reason(&Event::Rows(Err("db down".to_string()))),
        halt("Product quantity query failed: db down", false)
    );
    assert_eq!(
        run.halt_reason(&Event::Rows(Ok(vec![vec![DbValue::Int64(3)]]))),
        halt("Product quantity query failed: Unexpected error while fetching article quantity from database: ", true)
    );
    assert_eq!(run.halt_reason(&int_rows(i32::MIN)), halt("attempt to subtract with overflow", false));
    assert_eq!(run.halt_reason(&Event::Executed(Ok(1))), halt("unexpected event", false));
    assert_eq!(run.halt_reason(&int_rows(5)), None);
    let (run, _) = run.advance(&int_rows(5));
    assert_eq!(run.halt_reason(&Event::Rows(Err("gone".to_string()))), halt("Handling order failed: gone", false));
    let (run, _) = run.advance(&Event::Rows(Ok(vec![])));
    assert_eq!(run.phase(), Phase::Customer);
    assert_eq!(run.halt_reason(&Event::Executed(Err("c".to_string()))), halt("Customer data insert failed: c", false));
    let (run, _) = run.advance(&Event::Executed(Ok(1)));
    assert_eq!(
        run.halt_reason(&Event::Rows(Ok(vec![vec![DbValue::DbNull]]))),
        halt("called `Result::unwrap()` on an `Err` value: Unexpected error while fetching customer id from database: ", true)
    );
    assert_eq!(
        run.halt_reason(&Event::Rows(Err("q".to_string()))),
        halt("called `Result::unwrap()` on an `Err` value: q", false)
    );
    let (run, _) = run.advance(&int_rows(11));
    let (run, _) = run.advance(&Event::Executed(Ok(1)));
    let (run, _) = run.advance(&int_rows(11));
    assert_eq!(
        run.halt_reason(&Event::Rows(Ok(vec![vec![DbValue::Int16(1)]]))),
        halt("called `Result::unwrap()` on an `Err` value: Unexpected error while fetching order id from database: ", true)
    );
    let (run, _) = run.advance(&int_rows(21));
    assert_eq!(
        run.halt_reason(&Event::Executed(Err("i".to_string()))),
        halt("failed insert order items.: i", false)
    );
}

#[test]
fn first_int_reads_first_cell() {
    let w = Lookup::ArticleQuantity;
    assert_eq!(first_int(&vec![], w), Ok(0));
    assert_eq!(first_int(&vec![vec![]], w), Ok(0));
    assert_eq!(first_int(&vec![vec![DbValue::Int32(-4), DbValue::Int32(9)]], w), Ok(-4));
    assert_eq!(first_int(&vec![vec![DbValue::Str("4".to_string())]], Lookup::OrderId), Err(LookupError { which: Lookup::OrderId }));
    assert_eq!(
        LookupError { which: Lookup::CustomerId }.prefix(),
        "Unexpected error while fetching customer id from database: "
    );
}

#[test]
fn responses() {
    let headers = vec![
        Header { name: "content-type".to_string(), value: "application/json".to_string() },
        Header { name: "Access-Control-Allow-Origin".to_string(), value: "http://localhost:5173".to_string() },
        Header { name: "Access-Control-Allow-Methods".to_string(), value: "POST".to_string() },
        Header { name: "Access-Control-Allow-Headers".to_string(), value: "Content-Type".to_string() },
    ];
    let ok = order_response("PT0.004S", OrderState::Completed);
    assert_eq!(ok.status, 200);
    assert_eq!(ok.headers, headers);
    assert_eq!(ok.body, Body::Text("Execution time: PT0.004S. Order: Completed".to_string()));
    let bad = invalid_order_response("EOF while parsing a value at line 1 column 0");
    assert_eq!(bad.status, 400);
    assert_eq!(bad.body, Body::Text("Invalid request body: EOF while parsing a value at line 1 column 0".to_string()));
}

#[test]
fn uncovered_last_line_cancels_a_run() {
    let (run, _) = OrderRun::begin(order(vec![line(7, "Widget", 1), line(8, "Gadget", 5)]), T.to_string());
    let (run, _) = run.advance(&int_rows(9));
    let (run, _) = run.advance(&Event::Rows(Ok(vec![])));
    assert_eq!(run.state(), OrderState::Processing);
    let (run, step) = run.advance(&int_rows(5));
    assert_eq!(step, OrderStep::Done(OrderState::Canceled));
    assert_eq!(run.state(), OrderState::Canceled);
}

#[test]
fn tally_names_are_escaped_for_json() {
    let name = "Tab\there\u{1}\\é";
    let (run, _) = OrderRun::begin(order(vec![line(3, name, 1)]), T.to_string());
    let (run, _) = run.advance(&int_rows(2));
    let (run, _) = run.advance(&Event::Rows(Ok(vec![])));
    let (run, _) = run.advance(&Event::Executed(Ok(1)));
    let (_, step) = run.advance(&int_rows(4));
    let expected_json = format!("{{{}:1}}", serde_json::to_string(name).unwrap());
    assert_eq!(expected_json, "{\"Tab\\there\\u0001\\\\é\":1}");
    let sql = format!(
        "INSERT INTO products.\"order_details\" (timestamp_created, total_products, total_price, customer_id, order_state) VALUES ('{}', '{}', '30', '4', 'Completed')",
        T, expected_json
    );
    assert_eq!(step, x(&sql));
}
