//! Cart items, and the database values they are read from.
use vstd::prelude::*;
use vstd::string::*;
use crate::text::{index_panic, index_panic_text, unwrap_err_panic, unwrap_err_panic_text};

verus! {

/// A price as the floating-point value it was given in. Prices are only
/// carried, never computed with, so they stay in the form they came in:
/// the bits of an `f64` or of an `f32`, or the (mantissa, exponent, sign)
/// triple of the wasmCloud database interface, whose value is
/// `sign * mantissa * 2^exponent`.
#[derive(PartialEq, Eq, Structural, Debug, Clone, Copy)]
pub enum Price {
    Double(u64),
    Single(u32),
    Parts { mantissa: u64, exponent: i16, sign: i8 },
}

/// An item in a cart: `{"itemId", "quantity", "price"}` in JSON.
#[derive(PartialEq, Eq, Structural, Debug, Clone, Copy)]
pub struct CartItem {
    pub id: u32,
    pub quantity: u32,
    pub price: Price,
}

impl CartItem {
    /// The item of zeros that a listing's columns are read into.
    pub open spec fn spec_default() -> CartItem {
        CartItem { id: 0, quantity: 0, price: Price::Double(0) }
    }

    pub fn default() -> (r: CartItem)
        ensures
            r == CartItem::spec_default(),
    {
        CartItem { id: 0, quantity: 0, price: Price::Double(0) }
    }

    /// Sets the identifier, reinterpreting the value as unsigned.
    pub fn set_id(&mut self, id_value: i32)
        ensures
            *final(self) == (CartItem { id: id_value as u32, ..*old(self) }),
    {
        self.id = id_value as u32;
    }

    /// Sets the quantity, reinterpreting the value as unsigned.
    pub fn set_quantity(&mut self, quantity_value: i32)
        ensures
            *final(self) == (CartItem { quantity: quantity_value as u32, ..*old(self) }),
    {
        self.quantity = quantity_value as u32;
    }

    pub fn set_price(&mut self, price_value: Price)
        ensures
            *final(self) == (CartItem { price: price_value, ..*old(self) }),
    {
        self.price = price_value;
    }
}

/// A change to a cart item: the fields that are given are set.
#[derive(PartialEq, Eq, Structural, Debug, Clone, Copy)]
pub struct CartItemPatch {
    pub id: u32,
    pub quantity: Option<u32>,
    pub price: Option<Price>,
}

/// A value in a row that the Spin Postgres interface returns.
#[derive(PartialEq, Eq, Debug, Clone)]
pub enum DbValue {
    Boolean(bool),
    Int8(i8),
    Int16(i16),
    Int32(i32),
    Int64(i64),
    Uint8(u8),
    Uint16(u16),
    Uint32(u32),
    Uint64(u64),
    /// The bits of an `f32`.
    Floating32(u32),
    /// The bits of an `f64`.
    Floating64(u64),
    Str(String),
    Binary(Vec<u8>),
    DbNull,
    Unsupported,
}

/// A database value that is not of the kind asked for.
#[derive(PartialEq, Eq, Structural, Debug, Clone, Copy)]
pub enum ValueError {
    NotAnInt,
    NotAFloat,
}

impl ValueError {
    pub open spec fn spec_message(self) -> Seq<char> {
        match self {
            ValueError::NotAnInt => "not an int"@,
            ValueError::NotAFloat => "not a float"@,
        }
    }

    pub fn message(&self) -> (r: String)
        ensures
            r@ == self.spec_message(),
    {
        match self {
            ValueError::NotAnInt => String::from_str("not an int"),
            ValueError::NotAFloat => String::from_str("not a float"),
        }
    }
}

/// An integer value as an `i32`, wrapped to 32 bits as Rust's `as` does.
pub open spec fn spec_db_value_as_int(v: DbValue) -> Result<i32, ValueError> {
    match v {
        DbValue::Int64(x) => Ok(x as i32),
        DbValue::Int32(x) => Ok(x),
        DbValue::Int16(x) => Ok(x as i32),
        DbValue::Int8(x) => Ok(x as i32),
        DbValue::Uint64(x) => Ok(x as i32),
        DbValue::Uint32(x) => Ok(x as i32),
        DbValue::Uint16(x) => Ok(x as i32),
        DbValue::Uint8(x) => Ok(x as i32),
        _ => Err(ValueError::NotAnInt),
    }
}

/// A floating-point value as the price it stands for, in the width it came in.
pub open spec fn spec_db_value_as_float(v: DbValue) -> Result<Price, ValueError> {
    match v {
        DbValue::Floating32(x) => Ok(Price::Single(x)),
        DbValue::Floating64(x) => Ok(Price::Double(x)),
        _ => Err(ValueError::NotAFloat),
    }
}

/// Reads an integer database value as an `i32`.
pub fn db_value_as_int(value: &DbValue) -> (r: Result<i32, ValueError>)
    ensures
        r == spec_db_value_as_int(*value),
{
    match value {
        DbValue::Int64(x) => Ok(*x as i32),
        DbValue::Int32(x) => Ok(*x),
        DbValue::Int16(x) => Ok(*x as i32),
        DbValue::Int8(x) => Ok(*x as i32),
        DbValue::Uint64(x) => Ok(*x as i32),
        DbValue::Uint32(x) => Ok(*x as i32),
        DbValue::Uint16(x) => Ok(*x as i32),
        DbValue::Uint8(x) => Ok(*x as i32),
        _ => Err(ValueError::NotAnInt),
    }
}

/// Reads a floating-point database value as a price.
pub fn db_value_as_float(value: &DbValue) -> (r: Result<Price, ValueError>)
    ensures
        r == spec_db_value_as_float(*value),
{
    match value {
        DbValue::Floating32(x) => Ok(Price::Single(*x)),
        DbValue::Floating64(x) => Ok(Price::Double(*x)),
        _ => Err(ValueError::NotAFloat),
    }
}

/// A row `(item_id, quantity, price, ..)` that reads as a cart item.
pub open spec fn row_is_cart_item(row: Seq<DbValue>) -> bool {
    &&& row.len() >= 3
    &&& spec_db_value_as_int(row[0]) is Ok
    &&& spec_db_value_as_int(row[1]) is Ok
    &&& spec_db_value_as_float(row[2]) is Ok
}

/// The cart item in a row `(item_id, quantity, price, ..)`; the integers are
/// reinterpreted as unsigned as Rust's `as` does.
pub open spec fn spec_cart_item_from_row(row: Seq<DbValue>) -> CartItem {
    CartItem {
        id: spec_db_value_as_int(row[0])->Ok_0 as u32,
        quantity: spec_db_value_as_int(row[1])->Ok_0 as u32,
        price: spec_db_value_as_float(row[2])->Ok_0,
    }
}

/// Whether a row reads as a cart item.
pub fn is_cart_item_row(row: &Vec<DbValue>) -> (r: bool)
    ensures
        r == row_is_cart_item(row@),
{
    row.len() >= 3 && db_value_as_int(&row[0]).is_ok() && db_value_as_int(&row[1]).is_ok()
        && db_value_as_float(&row[2]).is_ok()
}

/// The cart item in a row `(item_id, quantity, price, ..)`.
pub fn cart_item_from_row(row: &Vec<DbValue>) -> (r: CartItem)
    requires
        row_is_cart_item(row@),
    ensures
        r == spec_cart_item_from_row(row@),
{
    let id = match db_value_as_int(&row[0]) {
        Ok(v) => v,
        Err(_) => 0,
    };
    let quantity = match db_value_as_int(&row[1]) {
        Ok(v) => v,
        Err(_) => 0,
    };
    let price = match db_value_as_float(&row[2]) {
        Ok(p) => p,
        Err(_) => Price::Double(0),
    };
    CartItem { id: id as u32, quantity: quantity as u32, price }
}

/// The cart items of all rows, in order.
pub fn cart_items_from_rows(rows: &Vec<Vec<DbValue>>) -> (r: Vec<CartItem>)
    requires
        forall|i: int| 0 <= i < rows@.len() ==> row_is_cart_item(#[trigger] rows@[i]@),
    ensures
        r@ == rows@.map_values(|row: Vec<DbValue>| spec_cart_item_from_row(row@)),
{
    let mut items: Vec<CartItem> = Vec::new();
    let mut i: usize = 0;
    while i < rows.len()
        invariant
            i <= rows@.len(),
            forall|j: int| 0 <= j < rows@.len() ==> row_is_cart_item(#[trigger] rows@[j]@),
            items@ == rows@.take(i as int).map_values(|row: Vec<DbValue>| spec_cart_item_from_row(row@)),
        decreases rows@.len() - i,
    {
        let item = cart_item_from_row(&rows[i]);
        items.push(item);
        assert(rows@.take(i + 1).map_values(|row: Vec<DbValue>| spec_cart_item_from_row(row@))
            =~= rows@.take(i as int).map_values(|row: Vec<DbValue>| spec_cart_item_from_row(row@)).push(item));
        i = i + 1;
    }
    assert(rows@.take(rows@.len() as int) =~= rows@);
    items
}

/// The message of the panic that reading a row `(item_id, quantity, price, ..)`
/// stops with, or `None` when it reads as a cart item: the columns are read
/// in order, each looked up and then unwrapped, and the first that is missing
/// or not of its kind gives the message.
pub open spec fn spec_row_fault(row: Seq<DbValue>) -> Option<Seq<char>> {
    if row.len() < 1 {
        Some(index_panic(row.len(), 0))
    } else if spec_db_value_as_int(row[0]) is Err {
        Some(unwrap_err_panic(ValueError::NotAnInt.spec_message()))
    } else if row.len() < 2 {
        Some(index_panic(row.len(), 1))
    } else if spec_db_value_as_int(row[1]) is Err {
        Some(unwrap_err_panic(ValueError::NotAnInt.spec_message()))
    } else if row.len() < 3 {
        Some(index_panic(row.len(), 2))
    } else if spec_db_value_as_float(row[2]) is Err {
        Some(unwrap_err_panic(ValueError::NotAFloat.spec_message()))
    } else {
        None
    }
}

/// The message of the panic that reading the rows in order stops with: that
/// of the first row that does not read as a cart item.
pub open spec fn spec_rows_fault(rows: Seq<Seq<DbValue>>) -> Option<Seq<char>>
    decreases rows.len(),
{
    if rows.len() == 0 {
        None
    } else {
        match spec_rows_fault(rows.drop_last()) {
            Some(m) => Some(m),
            None => spec_row_fault(rows.last()),
        }
    }
}

/// A row stops the reading exactly when it does not read as a cart item.
pub proof fn law_row_fault_iff_not_item(row: Seq<DbValue>)
    ensures
        spec_row_fault(row) is None <==> row_is_cart_item(row),
{
}

/// Rows stop the reading exactly when one of them does not read as a cart item.
pub proof fn law_rows_fault_iff_not_items(rows: Seq<Seq<DbValue>>)
    ensures
        spec_rows_fault(rows) is None <==> forall|i: int| 0 <= i < rows.len() ==> row_is_cart_item(#[trigger] rows[i]),
    decreases rows.len(),
{
    if rows.len() > 0 {
        law_rows_fault_iff_not_items(rows.drop_last());
        law_row_fault_iff_not_item(rows.last());
        if spec_rows_fault(rows) is None {
            assert forall|i: int| 0 <= i < rows.len() implies row_is_cart_item(#[trigger] rows[i]) by {
                if i < rows.len() - 1 {
                    assert(rows.drop_last()[i] == rows[i]);
                }
            }
        } else {
            if spec_rows_fault(rows.drop_last()) is Some {
                let i = choose|i: int| 0 <= i < rows.drop_last().len() && !row_is_cart_item(#[trigger] rows.drop_last()[i]);
                assert(rows.drop_last()[i] == rows[i]);
            } else {
                assert(!row_is_cart_item(rows[rows.len() - 1]));
            }
        }
    }
}

/// The message of the panic that reading a row stops with, if it does.
pub fn row_fault(row: &Vec<DbValue>) -> (r: Option<String>)
    ensures
        r is Some <==> spec_row_fault(row@) is Some,
        r matches Some(m) ==> spec_row_fault(row@) == Some(m@),
{
    if row.len() < 1 {
        return Some(index_panic_text(row.len(), 0));
    }
    if db_value_as_int(&row[0]).is_err() {
        return Some(unwrap_err_panic_text(ValueError::NotAnInt.message().as_str()));
    }
    if row.len() < 2 {
        return Some(index_panic_text(row.len(), 1));
    }
    if db_value_as_int(&row[1]).is_err() {
        return Some(unwrap_err_panic_text(ValueError::NotAnInt.message().as_str()));
    }
    if row.len() < 3 {
        return Some(index_panic_text(row.len(), 2));
    }
    if db_value_as_float(&row[2]).is_err() {
        return Some(unwrap_err_panic_text(ValueError::NotAFloat.message().as_str()));
    }
    None
}

/// The message of the panic that reading the rows in order stops with, if it does.
pub fn rows_fault(rows: &Vec<Vec<DbValue>>) -> (r: Option<String>)
    ensures
        r is Some <==> spec_rows_fault(rows@.map_values(|row: Vec<DbValue>| row@)) is Some,
        r matches Some(m) ==> spec_rows_fault(rows@.map_values(|row: Vec<DbValue>| row@)) == Some(m@),
{
    let ghost rv = rows@.map_values(|row: Vec<DbValue>| row@);
    let mut found: Option<String> = None;
    let mut i: usize = 0;
    while i < rows.len()
        invariant
            i <= rows@.len(),
            rv == rows@.map_values(|row: Vec<DbValue>| row@),
            found is Some <==> spec_rows_fault(rv.take(i as int)) is Some,
            found matches Some(m) ==> spec_rows_fault(rv.take(i as int)) == Some(m@),
        decreases rows@.len() - i,
    {
        assert(rv[i as int] == rows@[i as int]@);
        assert(rv.take(i + 1).drop_last() =~= rv.take(i as int));
        assert(rv.take(i + 1).last() == rv[i as int]);
        if found.is_none() {
            found = row_fault(&rows[i]);
        }
        i = i + 1;
    }
    assert(rv.take(rows@.len() as int) =~= rv);
    found
}

/// Reading back a 32-bit integer column gives the stored value.
pub proof fn law_int32_column_reads_back(x: i32)
    ensures
        spec_db_value_as_int(DbValue::Int32(x)) == Ok::<i32, ValueError>(x),
{
}

/// An item stored as the services store it (identifier and quantity as
/// `Int32`, price as `Floating64`) reads back as the same item: the 32-bit
/// reinterpretation of the numbers undoes itself.
pub proof fn law_stored_item_reads_back(item: CartItem, bits: u64)
    requires
        item.price == Price::Double(bits),
    ensures
        row_is_cart_item(seq![
            DbValue::Int32(item.id as i32),
            DbValue::Int32(item.quantity as i32),
            DbValue::Floating64(bits),
        ]),
        spec_cart_item_from_row(seq![
            DbValue::Int32(item.id as i32),
            DbValue::Int32(item.quantity as i32),
            DbValue::Floating64(bits),
        ]) == item,
{
    let id = item.id;
    let q = item.quantity;
    assert((id as i32) as u32 == id) by (bit_vector);
    assert((q as i32) as u32 == q) by (bit_vector);
}

} // verus!
