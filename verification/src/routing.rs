//! Which handler a request URL goes to. The three routes of a cart service
//! are URL patterns on the path (`/<prefix>/:cartId`,
//! `/<prefix>/:cartId/items`, `/<prefix>/:cartId/items/:itemId`), matched
//! with the `urlpattern` crate in that order.
use vstd::prelude::*;
use vstd::string::*;

verus! {

/// The type `url::Url`; its values are opaque here and only carried from
/// `parse_url` to `exec_path_pattern`.
#[verifier::external_type_specification]
#[verifier::external_body]
pub struct ExUrl(url::Url);

/// Whether `url::Url::parse` accepts the text.
pub uninterp spec fn url_parses(text: Seq<char>) -> bool;

/// Whether `urlpattern::UrlPattern::parse` accepts a pattern whose pathname is `source`.
pub uninterp spec fn path_pattern_compiles(source: Seq<char>) -> bool;

/// What `UrlPattern::exec` gives for the pattern with pathname `source` on the URL
/// parsed from `url`: `None` when it does not match, else the value of the named
/// pathname group `group` (`None` when the pattern has no such group).
pub uninterp spec fn path_pattern_group(
    source: Seq<char>,
    url: Seq<char>,
    group: Seq<char>,
) -> Option<Option<Seq<char>>>;

/// A URL that `url::Url::parse` accepted, with the text it was parsed from.
struct ParsedUrl {
    text: String,
    url: url::Url,
}

impl View for ParsedUrl {
    type V = Seq<char>;

    closed spec fn view(&self) -> Seq<char> {
        self.text@
    }
}

/// Calls `url::Url::parse` on `text`. Claimed: the result is `Some` exactly when
/// the crate accepts the text, and it remembers the text it came from.
#[verifier::external_body]
fn parse_url(text: &str) -> (r: Option<ParsedUrl>)
    ensures
        r is Some <==> url_parses(text@),
        r matches Some(p) ==> p@ == text@,
{
    match url::Url::parse(text) {
        Ok(url) => Some(ParsedUrl { text: text.to_string(), url }),
        Err(_) => None,
    }
}

/// Compiles the pattern whose pathname is `source` with `urlpattern::UrlPattern::parse`
/// and runs `UrlPattern::exec` on `url`, reading the pathname group `group`.
/// Claimed: `Err` exactly when the pattern does not compile, and otherwise the
/// value named by `path_pattern_group`. `exec` on a URL never returns an error in
/// the crate's source (it always ends in `Ok`); an error would read as no match.
#[verifier::external_body]
fn exec_path_pattern(source: &str, url: &ParsedUrl, group: &str) -> (r: Result<Option<Option<String>>, ()>)
    ensures
        r is Err <==> !path_pattern_compiles(source@),
        r matches Ok(m) ==> path_pattern_group(source@, url@, group@) == match_view(m),
{
    let init = urlpattern::UrlPatternInit { pathname: Some(source.to_owned()), ..Default::default() };
    match <urlpattern::UrlPattern>::parse(init) {
        Err(_) => Err(()),
        Ok(pattern) => match pattern.exec(urlpattern::UrlPatternMatchInput::Url(url.url.clone())) {
            Ok(Some(found)) => Ok(Some(found.pathname.groups.get(group).cloned())),
            _ => Ok(None),
        },
    }
}

/// The cart services; each serves its routes under its own path prefix.
#[derive(PartialEq, Eq, Structural, Debug, Clone, Copy)]
pub enum Service {
    /// The Spin service under `/carts-rs`.
    CartsRs,
    /// The first Spin service, under `/carts`.
    Carts,
    /// The wasmCloud service under `/carts-wcrs`.
    CartsWcrs,
}

/// The pathname pattern of a service's cart route.
pub open spec fn cart_pattern(s: Service) -> Seq<char> {
    match s {
        Service::CartsRs => "/carts-rs/:cartId"@,
        Service::Carts => "/carts/:cartId"@,
        Service::CartsWcrs => "/carts-wcrs/:cartId"@,
    }
}

/// The pathname pattern of a service's items route.
pub open spec fn cart_items_pattern(s: Service) -> Seq<char> {
    match s {
        Service::CartsRs => "/carts-rs/:cartId/items"@,
        Service::Carts => "/carts/:cartId/items"@,
        Service::CartsWcrs => "/carts-wcrs/:cartId/items"@,
    }
}

/// The pathname pattern of a service's single-item route.
pub open spec fn cart_item_pattern(s: Service) -> Seq<char> {
    match s {
        Service::CartsRs => "/carts-rs/:cartId/items/:itemId"@,
        Service::Carts => "/carts/:cartId/items/:itemId"@,
        Service::CartsWcrs => "/carts-wcrs/:cartId/items/:itemId"@,
    }
}

fn patterns(s: Service) -> (r: (&'static str, &'static str, &'static str))
    ensures
        r.0@ == cart_pattern(s),
        r.1@ == cart_items_pattern(s),
        r.2@ == cart_item_pattern(s),
{
    match s {
        Service::CartsRs => ("/carts-rs/:cartId", "/carts-rs/:cartId/items", "/carts-rs/:cartId/items/:itemId"),
        Service::Carts => ("/carts/:cartId", "/carts/:cartId/items", "/carts/:cartId/items/:itemId"),
        Service::CartsWcrs => (
            "/carts-wcrs/:cartId",
            "/carts-wcrs/:cartId/items",
            "/carts-wcrs/:cartId/items/:itemId",
        ),
    }
}

/// The handler that a request goes to, with the raw path segments it captured.
#[derive(PartialEq, Eq, Debug, Clone)]
pub enum Route {
    Cart { cart_id: String },
    CartItems { cart_id: String },
    CartItem { cart_id: String, item_id: String },
    Unmatched,
}

pub enum RouteView {
    Cart(Seq<char>),
    CartItems(Seq<char>),
    CartItem(Seq<char>, Seq<char>),
    Unmatched,
}

impl View for Route {
    type V = RouteView;

    open spec fn view(&self) -> RouteView {
        match self {
            Route::Cart { cart_id } => RouteView::Cart(cart_id@),
            Route::CartItems { cart_id } => RouteView::CartItems(cart_id@),
            Route::CartItem { cart_id, item_id } => RouteView::CartItem(cart_id@, item_id@),
            Route::Unmatched => RouteView::Unmatched,
        }
    }
}

/// Why a request could not be routed; the services stop (a panic) on each of these.
#[derive(PartialEq, Eq, Structural, Debug, Clone, Copy)]
pub enum RouteError {
    /// The request URL does not parse.
    UrlRejected,
    /// One of the route patterns does not compile.
    PatternRejected,
    /// A pattern matched but did not capture a group that it names.
    GroupMissing,
}

/// The route of `url` for service `s`: the cart route first, then the items
/// route, then the single-item route.
pub open spec fn spec_route(s: Service, url: Seq<char>) -> Result<RouteView, RouteError> {
    let p1 = cart_pattern(s);
    let p2 = cart_items_pattern(s);
    let p3 = cart_item_pattern(s);
    if !url_parses(url) {
        Err(RouteError::UrlRejected)
    } else if !path_pattern_compiles(p1) || !path_pattern_compiles(p2) || !path_pattern_compiles(p3) {
        Err(RouteError::PatternRejected)
    } else {
        spec_pick_route(
            path_pattern_group(p1, url, "cartId"@),
            path_pattern_group(p2, url, "cartId"@),
            path_pattern_group(p3, url, "cartId"@),
            path_pattern_group(p3, url, "itemId"@),
        )
    }
}

/// A pattern result as plain text.
pub open spec fn match_view(m: Option<Option<String>>) -> Option<Option<Seq<char>>> {
    match m {
        Some(Some(g)) => Some(Some(g@)),
        Some(None) => Some(None),
        None => None,
    }
}

/// The route chosen from what the three patterns gave on an accepted URL:
/// the cart pattern's `cartId`, the items pattern's `cartId`, and the
/// single-item pattern's `cartId` and `itemId` (each `None` when the pattern
/// did not match, `Some(None)` when the group was not captured).
pub open spec fn spec_pick_route(
    m1: Option<Option<Seq<char>>>,
    m2: Option<Option<Seq<char>>>,
    m3: Option<Option<Seq<char>>>,
    m3_item: Option<Option<Seq<char>>>,
) -> Result<RouteView, RouteError> {
    if m1 is Some {
        match m1->0 {
            Some(id) => Ok(RouteView::Cart(id)),
            None => Err(RouteError::GroupMissing),
        }
    } else if m2 is Some {
        match m2->0 {
            Some(id) => Ok(RouteView::CartItems(id)),
            None => Err(RouteError::GroupMissing),
        }
    } else if m3 is Some {
        match (m3->0, m3_item) {
            (Some(cart), Some(Some(item))) => Ok(RouteView::CartItem(cart, item)),
            _ => Err(RouteError::GroupMissing),
        }
    } else {
        Ok(RouteView::Unmatched)
    }
}

/// Chooses the route from the three patterns' results, in their order.
pub fn pick_route(
    m1: Option<Option<String>>,
    m2: Option<Option<String>>,
    m3: Option<Option<String>>,
    m3_item: Option<Option<String>>,
) -> (r: Result<Route, RouteError>)
    ensures
        match r {
            Ok(route) => spec_pick_route(match_view(m1), match_view(m2), match_view(m3), match_view(m3_item))
                == Ok::<RouteView, RouteError>(route@),
            Err(e) => spec_pick_route(match_view(m1), match_view(m2), match_view(m3), match_view(m3_item))
                == Err::<RouteView, RouteError>(e),
        },
{
    match m1 {
        Some(Some(id)) => return Ok(Route::Cart { cart_id: id }),
        Some(None) => return Err(RouteError::GroupMissing),
        None => {},
    }
    match m2 {
        Some(Some(id)) => return Ok(Route::CartItems { cart_id: id }),
        Some(None) => return Err(RouteError::GroupMissing),
        None => {},
    }
    match m3 {
        Some(Some(cart)) => match m3_item {
            Some(Some(item)) => Ok(Route::CartItem { cart_id: cart, item_id: item }),
            _ => Err(RouteError::GroupMissing),
        },
        Some(None) => Err(RouteError::GroupMissing),
        None => Ok(Route::Unmatched),
    }
}

fn compute_route(s: Service, url: &str) -> (r: Result<Route, RouteError>)
    ensures
        match r {
            Ok(route) => spec_route(s, url@) == Ok::<RouteView, RouteError>(route@),
            Err(e) => spec_route(s, url@) == Err::<RouteView, RouteError>(e),
        },
{
    let parsed = match parse_url(url) {
        Some(p) => p,
        None => return Err(RouteError::UrlRejected),
    };
    let (p1, p2, p3) = patterns(s);
    let m1 = exec_path_pattern(p1, &parsed, "cartId");
    let m2 = exec_path_pattern(p2, &parsed, "cartId");
    let m3 = exec_path_pattern(p3, &parsed, "cartId");
    let m3_item = exec_path_pattern(p3, &parsed, "itemId");
    match (m1, m2, m3, m3_item) {
        (Ok(a), Ok(b), Ok(c), Ok(d)) => pick_route(a, b, c, d),
        _ => Err(RouteError::PatternRejected),
    }
}

/// Routes the request URL `url` (its full text) for service `s`. The URLs on
/// which the services stop are left out: `try_route` tells them apart.
pub fn route(s: Service, url: &str) -> (r: Route)
    requires
        spec_route(s, url@) is Ok,
    ensures
        spec_route(s, url@) == Ok::<RouteView, RouteError>(r@),
{
    match compute_route(s, url) {
        Ok(r) => r,
        Err(_) => Route::Unmatched,
    }
}

/// Routes the request URL `url` for service `s`, or says why it cannot be.
pub fn try_route(s: Service, url: &str) -> (r: Result<Route, RouteError>)
    ensures
        match r {
            Ok(route) => spec_route(s, url@) == Ok::<RouteView, RouteError>(route@),
            Err(e) => spec_route(s, url@) == Err::<RouteView, RouteError>(e),
        },
{
    match compute_route(s, url) {
        Ok(_) => Ok(route(s, url)),
        Err(e) => Err(e),
    }
}

/// The routes of a service nest: its cart pattern is `/<prefix>/:cartId`,
/// its items pattern is the cart pattern followed by `/items`, and its
/// single-item pattern is the items pattern followed by `/:itemId`, with the
/// prefixes `carts-rs`, `carts` and `carts-wcrs`.
pub proof fn law_pattern_shapes(s: Service)
    ensures
        cart_pattern(Service::CartsRs) == "/carts-rs/:cartId"@,
        cart_pattern(Service::Carts) == "/carts/:cartId"@,
        cart_pattern(Service::CartsWcrs) == "/carts-wcrs/:cartId"@,
        cart_items_pattern(s) == cart_pattern(s) + "/items"@,
        cart_item_pattern(s) == cart_items_pattern(s) + "/:itemId"@,
{
    reveal_strlit("/items");
    reveal_strlit("/:itemId");
    reveal_strlit("/carts-rs/:cartId");
    reveal_strlit("/carts-rs/:cartId/items");
    reveal_strlit("/carts-rs/:cartId/items/:itemId");
    reveal_strlit("/carts/:cartId");
    reveal_strlit("/carts/:cartId/items");
    reveal_strlit("/carts/:cartId/items/:itemId");
    reveal_strlit("/carts-wcrs/:cartId");
    reveal_strlit("/carts-wcrs/:cartId/items");
    reveal_strlit("/carts-wcrs/:cartId/items/:itemId");
    assert(cart_items_pattern(s) =~= cart_pattern(s) + "/items"@);
    assert(cart_item_pattern(s) =~= cart_items_pattern(s) + "/:itemId"@);
}

/// A matched cart route is taken before the items and single-item routes are
/// looked at: whenever the cart pattern matches (and the URL and patterns are
/// accepted), the request goes to the cart handler or stops for a missing group.
pub proof fn law_cart_route_first(s: Service, url: Seq<char>)
    requires
        url_parses(url),
        path_pattern_compiles(cart_pattern(s)),
        path_pattern_compiles(cart_items_pattern(s)),
        path_pattern_compiles(cart_item_pattern(s)),
        path_pattern_group(cart_pattern(s), url, "cartId"@) is Some,
    ensures
        spec_route(s, url) matches Ok(v) ==> v is Cart,
        spec_route(s, url) matches Err(e) ==> e == RouteError::GroupMissing,
{
}

/// Every service routes a URL that only its single-item pattern matches, with
/// both groups captured, to the single-item handler.
pub proof fn law_item_route_served(s: Service, url: Seq<char>, cart: Seq<char>, item: Seq<char>)
    requires
        url_parses(url),
        path_pattern_compiles(cart_pattern(s)),
        path_pattern_compiles(cart_items_pattern(s)),
        path_pattern_compiles(cart_item_pattern(s)),
        path_pattern_group(cart_pattern(s), url, "cartId"@) is None,
        path_pattern_group(cart_items_pattern(s), url, "cartId"@) is None,
        path_pattern_group(cart_item_pattern(s), url, "cartId"@) == Some(Some(cart)),
        path_pattern_group(cart_item_pattern(s), url, "itemId"@) == Some(Some(item)),
    ensures
        spec_route(s, url) == Ok::<RouteView, RouteError>(RouteView::CartItem(cart, item)),
{
}

} // verus!
