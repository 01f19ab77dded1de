//! Requests and responses as plain values: the method of a request, and the
//! status, headers and body of a response. Bodies that are JSON documents are
//! kept as the values they show; the host writes them out.
use vstd::prelude::*;
use vstd::string::*;
use crate::cart::{CartItem, CartItemPatch};

verus! {

/// The method of an HTTP request.
#[derive(PartialEq, Eq, Debug, Clone)]
pub enum Method {
    Get,
    Head,
    Post,
    Put,
    Delete,
    Connect,
    Options,
    Trace,
    Patch,
    Other(String),
}

/// What a JSON response body shows.
#[derive(PartialEq, Eq, Debug, Clone)]
pub enum Payload {
    /// `{"customerId": id}`
    Cart { customer_id: u32 },
    /// One cart item.
    Item(CartItem),
    /// A list of cart items.
    Items(Vec<CartItem>),
}

pub enum PayloadView {
    Cart(u32),
    Item(CartItem),
    Items(Seq<CartItem>),
}

impl View for Payload {
    type V = PayloadView;

    open spec fn view(&self) -> PayloadView {
        match self {
            Payload::Cart { customer_id } => PayloadView::Cart(*customer_id),
            Payload::Item(item) => PayloadView::Item(*item),
            Payload::Items(items) => PayloadView::Items(items@),
        }
    }
}

/// The body of a response.
#[derive(PartialEq, Eq, Debug, Clone)]
pub enum Body {
    /// No body.
    Empty,
    /// A text body.
    Text(String),
    /// A JSON document.
    Json(Payload),
    /// The text `Patch cart=<cart> item <patch>`, the patch in Rust's debug notation.
    PatchEcho { cart_id: u32, patch: CartItemPatch },
}

pub enum BodyView {
    Empty,
    Text(Seq<char>),
    Json(PayloadView),
    PatchEcho(u32, CartItemPatch),
}

impl View for Body {
    type V = BodyView;

    open spec fn view(&self) -> BodyView {
        match self {
            Body::Empty => BodyView::Empty,
            Body::Text(t) => BodyView::Text(t@),
            Body::Json(p) => BodyView::Json(p@),
            Body::PatchEcho { cart_id, patch } => BodyView::PatchEcho(*cart_id, *patch),
        }
    }
}

/// A response header.
#[derive(PartialEq, Eq, Debug, Clone)]
pub struct Header {
    pub name: String,
    pub value: String,
}

/// An HTTP response.
#[derive(PartialEq, Eq, Debug, Clone)]
pub struct Response {
    pub status: u16,
    pub headers: Vec<Header>,
    pub body: Body,
}

pub struct ResponseView {
    pub status: u16,
    pub headers: Seq<(Seq<char>, Seq<char>)>,
    pub body: BodyView,
}

impl View for Response {
    type V = ResponseView;

    open spec fn view(&self) -> ResponseView {
        ResponseView {
            status: self.status,
            headers: self.headers@.map_values(|h: Header| (h.name@, h.value@)),
            body: self.body@,
        }
    }
}

/// A response with the given status, headers and body.
pub open spec fn response_view(
    status: u16,
    headers: Seq<(Seq<char>, Seq<char>)>,
    body: BodyView,
) -> ResponseView {
    ResponseView { status, headers, body }
}

/// The headers of a JSON answer.
pub open spec fn json_headers() -> Seq<(Seq<char>, Seq<char>)> {
    seq![("Content-Type"@, "application/json"@)]
}

/// A response with the given status and body and no headers.
pub fn plain(status: u16, body: Body) -> (r: Response)
    ensures
        r@ == response_view(status, Seq::empty(), body@),
{
    let r = Response { status, headers: Vec::new(), body };
    assert(r@.headers =~= Seq::<(Seq<char>, Seq<char>)>::empty());
    r
}

/// A response with one header.
pub fn with_header(status: u16, name: &str, value: &str, body: Body) -> (r: Response)
    ensures
        r@ == response_view(status, seq![(name@, value@)], body@),
{
    let mut headers = Vec::new();
    headers.push(Header { name: String::from_str(name), value: String::from_str(value) });
    let r = Response { status, headers, body };
    assert(r@.headers =~= seq![(name@, value@)]);
    r
}

/// A `200` response carrying the JSON document `payload`.
pub fn json(payload: Payload) -> (r: Response)
    ensures
        r@ == response_view(200, json_headers(), BodyView::Json(payload@)),
{
    with_header(200, "Content-Type", "application/json", Body::Json(payload))
}

} // verus!
