use carts::cart::{cart_item_from_row, row_fault, db_value_as_float, db_value_as_int, is_cart_item_row, CartItem, DbValue, Price, ValueError};

#[test]
fn ints_wrap_like_as() {
    assert_eq!(db_value_as_int(&DbValue::Int64(-1)), Ok(-1));
    assert_eq!(db_value_as_int(&DbValue::Int64(1 << 40)), Ok(0));
    assert_eq!(db_value_as_int(&DbValue::Uint32(u32::MAX)), Ok(-1));
    assert_eq!(db_value_as_int(&DbValue::Uint64(0x1_0000_0007)), Ok(7));
    assert_eq!(db_value_as_int(&DbValue::Int8(-8)), Ok(-8));
    assert_eq!(db_value_as_int(&DbValue::Uint16(65535)), Ok(65535));
    assert_eq!(db_value_as_int(&DbValue::Boolean(true)), Err(ValueError::NotAnInt));
    assert_eq!(ValueError::NotAnInt.message(), "not an int");
}

#[test]
fn floats_keep_their_bits() {
    assert_eq!(db_value_as_float(&DbValue::Floating64(2.5f64.to_bits())), Ok(Price::Double(2.5f64.to_bits())));
    assert_eq!(db_value_as_float(&DbValue::Floating32(2.5f32.to_bits())), Ok(Price::Single(2.5f32.to_bits())));
    assert_eq!(db_value_as_float(&DbValue::Int32(1)), Err(ValueError::NotAFloat));
    assert_eq!(ValueError::NotAFloat.message(), "not a float");
}

#[test]
fn stored_item_reads_back() {
    let item = CartItem { id: 12, quantity: 3, price: Price::Double(9.5f64.to_bits()) };
    let row = vec![DbValue::Int32(12), DbValue::Int32(3), DbValue::Floating64(9.5f64.to_bits())];
    assert!(is_cart_item_row(&row));
    assert_eq!(cart_item_from_row(&row), item);
    assert!(!is_cart_item_row(&vec![DbValue::Int32(12), DbValue::Int32(3)]));
}

#[test]
fn negative_ids_reinterpret() {
    let row = vec![DbValue::Int32(-1), DbValue::Int32(2), DbValue::Floating64(0)];
    assert_eq!(cart_item_from_row(&row).id, u32::MAX);
}

#[test]
fn item_setters() {
    let mut item = CartItem::default();
    assert_eq!(item, CartItem { id: 0, quantity: 0, price: Price::Double(0) });
    item.set_id(-2);
    item.set_quantity(5);
    item.set_price(Price::Parts { mantissa: 3, exponent: -1, sign: 1 });
    assert_eq!(item, CartItem { id: u32::MAX - 1, quantity: 5, price: Price::Parts { mantissa: 3, exponent: -1, sign: 1 } });
}

#[test]
fn row_faults_name_the_first_failing_column() {
    assert_eq!(row_fault(&vec![DbValue::Int32(1), DbValue::Int32(2), DbValue::Floating64(0)]), None);
    assert_eq!(row_fault(&vec![]), Some("index out of bounds: the len is 0 but the index is 0".to_string()));
    assert_eq!(
        row_fault(&vec![DbValue::DbNull]),
        Some("called `Result::unwrap()` on an `Err` value: not an int".to_string())
    );
    assert_eq!(
        row_fault(&vec![DbValue::Int32(1)]),
        Some("index out of bounds: the len is 1 but the index is 1".to_string())
    );
    assert_eq!(
        row_fault(&vec![DbValue::Int32(1), DbValue::Int32(1), DbValue::Int32(1)]),
        Some("called `Result::unwrap()` on an `Err` value: not a float".to_string())
    );
}
