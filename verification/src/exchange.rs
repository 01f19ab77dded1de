//! What a Spin cart handler asks its host to do, and what the host hands back.
//! A handler runs as a sequence of steps: each step is a database statement to
//! run, a request body to read, or the end of the request.
use vstd::prelude::*;
use crate::cart::{CartItem, CartItemPatch, DbValue, Price};
use vstd::string::*;
use crate::http::{json, plain, response_view, json_headers, Body, BodyView, Payload, PayloadView, Response, ResponseView};

verus! {

/// A parameter of a database statement.
#[derive(PartialEq, Eq, Structural, Debug, Clone, Copy)]
pub enum SqlParam {
    Int32(i32),
    /// A double-precision parameter with this price's value.
    Floating64(Price),
}

/// A statement for the Spin Postgres interface: `query` returns rows,
/// `execute` the number of rows changed.
#[derive(PartialEq, Eq, Debug, Clone)]
pub enum Statement {
    Query { sql: String, params: Vec<SqlParam> },
    Execute { sql: String, params: Vec<SqlParam> },
}

pub enum StatementView {
    Query(Seq<char>, Seq<SqlParam>),
    Execute(Seq<char>, Seq<SqlParam>),
}

impl View for Statement {
    type V = StatementView;

    open spec fn view(&self) -> StatementView {
        match self {
            Statement::Query { sql, params } => StatementView::Query(sql@, params@),
            Statement::Execute { sql, params } => StatementView::Execute(sql@, params@),
        }
    }
}

/// What the host hands back to a handler.
#[derive(PartialEq, Eq, Debug)]
pub enum Event {
    /// The rows of a query, or the database's error message.
    Rows(Result<Vec<Vec<DbValue>>, String>),
    /// The number of rows an execute changed, or the database's error message.
    Executed(Result<u64, String>),
    /// The request body read as a cart item, or why it could not be.
    Item(Result<CartItem, String>),
    /// The request body read as a cart item patch, or why it could not be.
    Patch(Result<CartItemPatch, String>),
}

pub enum EventView {
    Rows(Result<Seq<Seq<DbValue>>, Seq<char>>),
    Executed(Result<u64, Seq<char>>),
    Item(Result<CartItem, Seq<char>>),
    Patch(Result<CartItemPatch, Seq<char>>),
}

impl View for Event {
    type V = EventView;

    open spec fn view(&self) -> EventView {
        match self {
            Event::Rows(Ok(rows)) => EventView::Rows(Ok(rows@.map_values(|r: Vec<DbValue>| r@))),
            Event::Rows(Err(e)) => EventView::Rows(Err(e@)),
            Event::Executed(Ok(n)) => EventView::Executed(Ok(*n)),
            Event::Executed(Err(e)) => EventView::Executed(Err(e@)),
            Event::Item(Ok(i)) => EventView::Item(Ok(*i)),
            Event::Item(Err(e)) => EventView::Item(Err(e@)),
            Event::Patch(Ok(p)) => EventView::Patch(Ok(*p)),
            Event::Patch(Err(e)) => EventView::Patch(Err(e@)),
        }
    }
}

/// What a handler asks for next.
#[derive(PartialEq, Eq, Debug, Clone)]
pub enum Step {
    /// Run the statement and hand back its outcome.
    Run(Statement),
    /// Read the request body as a cart item (`Event::Item`).
    ReadItem,
    /// Read the request body as a cart item patch (`Event::Patch`).
    ReadPatch,
    /// Send the response; the request is done.
    Reply(Response),
    /// The handler ends in an error with this message (Spin answers it with a
    /// `500` whose body is the message).
    Fail(String),
    /// The handler stops the component (a panic) with this message.
    Halt(String),
}

pub enum StepView {
    Run(StatementView),
    ReadItem,
    ReadPatch,
    Reply(ResponseView),
    Fail(Seq<char>),
    Halt(Seq<char>),
}

impl View for Step {
    type V = StepView;

    open spec fn view(&self) -> StepView {
        match self {
            Step::Run(s) => StepView::Run(s@),
            Step::ReadItem => StepView::ReadItem,
            Step::ReadPatch => StepView::ReadPatch,
            Step::Reply(r) => StepView::Reply(r@),
            Step::Fail(m) => StepView::Fail(m@),
            Step::Halt(m) => StepView::Halt(m@),
        }
    }
}

/// The parameters `[a]`, as the services pass a cart identifier.
pub open spec fn key1(a: u32) -> Seq<SqlParam> {
    seq![SqlParam::Int32(a as i32)]
}

/// The parameters `[a, b]`, as the services pass a cart and an item identifier.
pub open spec fn key2(a: u32, b: u32) -> Seq<SqlParam> {
    seq![SqlParam::Int32(a as i32), SqlParam::Int32(b as i32)]
}

/// Send `r`.
pub open spec fn reply(r: ResponseView) -> StepView {
    StepView::Reply(r)
}

/// A response with only a status.
pub open spec fn bare(status: u16) -> StepView {
    reply(response_view(status, Seq::empty(), BodyView::Empty))
}

/// A response whose body is the text `t`.
pub open spec fn with_text(status: u16, t: Seq<char>) -> StepView {
    reply(response_view(status, Seq::empty(), BodyView::Text(t)))
}

/// A `200` JSON response.
pub open spec fn with_json(p: PayloadView) -> StepView {
    reply(response_view(200, json_headers(), BodyView::Json(p)))
}

/// Run a query.
pub open spec fn query(sql: Seq<char>, params: Seq<SqlParam>) -> StepView {
    StepView::Run(StatementView::Query(sql, params))
}

/// Run an execute.
pub open spec fn execute(sql: Seq<char>, params: Seq<SqlParam>) -> StepView {
    StepView::Run(StatementView::Execute(sql, params))
}

/// Stop on an event that does not answer the step asked for.
pub open spec fn unexpected() -> StepView {
    StepView::Halt("unexpected event"@)
}

pub(crate) fn key_params1(a: u32) -> (r: Vec<SqlParam>)
    ensures
        r@ == key1(a),
{
    let mut v = Vec::new();
    v.push(SqlParam::Int32(a as i32));
    assert(v@ =~= key1(a));
    v
}

pub(crate) fn key_params2(a: u32, b: u32) -> (r: Vec<SqlParam>)
    ensures
        r@ == key2(a, b),
{
    let mut v = Vec::new();
    v.push(SqlParam::Int32(a as i32));
    v.push(SqlParam::Int32(b as i32));
    assert(v@ =~= key2(a, b));
    v
}

pub(crate) fn run_query(sql: &str, params: Vec<SqlParam>) -> (r: Step)
    ensures
        r@ == query(sql@, params@),
{
    Step::Run(Statement::Query { sql: String::from_str(sql), params })
}

pub(crate) fn run_execute(sql: String, params: Vec<SqlParam>) -> (r: Step)
    ensures
        r@ == execute(sql@, params@),
{
    Step::Run(Statement::Execute { sql, params })
}

pub(crate) fn answer(r: Response) -> (s: Step)
    ensures
        s@ == reply(r@),
{
    Step::Reply(r)
}

pub(crate) fn answer_bare(status: u16) -> (s: Step)
    ensures
        s@ == bare(status),
{
    Step::Reply(plain(status, Body::Empty))
}

pub(crate) fn answer_text(status: u16, t: String) -> (s: Step)
    ensures
        s@ == with_text(status, t@),
{
    Step::Reply(plain(status, Body::Text(t)))
}

pub(crate) fn answer_json(p: Payload) -> (s: Step)
    ensures
        s@ == with_json(p@),
{
    Step::Reply(json(p))
}

pub(crate) fn halt_unexpected() -> (s: Step)
    ensures
        s@ == unexpected(),
{
    Step::Halt(String::from_str("unexpected event"))
}

} // verus!
