use carts::routing::{pick_route, route, try_route, Route, RouteError, Service};

fn cart(id: &str) -> Route {
    Route::Cart { cart_id: id.to_string() }
}

fn items(id: &str) -> Route {
    Route::CartItems { cart_id: id.to_string() }
}

#[test]
fn routes_of_carts_rs() {
    let s = Service::CartsRs;
    assert_eq!(try_route(s, "http://127.0.0.1:3000/carts-rs/12"), Ok(cart("12")));
    assert_eq!(try_route(s, "http://127.0.0.1:3000/carts-rs/12/items"), Ok(items("12")));
    assert_eq!(
        try_route(s, "http://127.0.0.1:3000/carts-rs/12/items/7"),
        Ok(Route::CartItem { cart_id: "12".to_string(), item_id: "7".to_string() })
    );
    assert_eq!(try_route(s, "http://127.0.0.1:3000/carts-rs/abc"), Ok(cart("abc")));
    assert_eq!(try_route(s, "http://127.0.0.1:3000/carts-rs/12?x=1"), Ok(cart("12")));
}

#[test]
fn unmatched_paths() {
    let s = Service::CartsRs;
    assert_eq!(try_route(s, "http://127.0.0.1:3000/carts-rs/"), Ok(Route::Unmatched));
    assert_eq!(try_route(s, "http://127.0.0.1:3000/carts/12"), Ok(Route::Unmatched));
    assert_eq!(try_route(s, "http://127.0.0.1:3000/carts-rs/12/items/7/x"), Ok(Route::Unmatched));
}

#[test]
fn bad_url_is_rejected() {
    assert_eq!(try_route(Service::Carts, "not a url"), Err(RouteError::UrlRejected));
}

#[test]
fn carts_prefix() {
    assert_eq!(try_route(Service::Carts, "http://h/carts/3/items"), Ok(items("3")));
    assert_eq!(try_route(Service::Carts, "http://h/carts-rs/3/items"), Ok(Route::Unmatched));
}

#[test]
fn wcrs_serves_all_routes() {
    let s = Service::CartsWcrs;
    assert_eq!(try_route(s, "http://127.0.0.1:8080/carts-wcrs/10"), Ok(cart("10")));
    assert_eq!(try_route(s, "http://127.0.0.1:8080/carts-wcrs/10/items"), Ok(items("10")));
    assert_eq!(
        try_route(s, "http://127.0.0.1:8080/carts-wcrs/10/items/2"),
        Ok(Route::CartItem { cart_id: "10".to_string(), item_id: "2".to_string() })
    );
    assert_eq!(route(s, "http://127.0.0.1:8080/carts-wcrs/10/items"), items("10"));
}

#[test]
fn pick_route_order() {
    let some = |s: &str| Some(Some(s.to_string()));
    assert_eq!(pick_route(some("1"), some("2"), None, None), Ok(cart("1")));
    assert_eq!(pick_route(None, some("2"), some("3"), some("4")), Ok(items("2")));
    assert_eq!(
        pick_route(None, None, some("3"), some("4")),
        Ok(Route::CartItem { cart_id: "3".to_string(), item_id: "4".to_string() })
    );
    assert_eq!(pick_route(Some(None), some("2"), None, None), Err(RouteError::GroupMissing));
    assert_eq!(pick_route(None, None, some("3"), Some(None)), Err(RouteError::GroupMissing));
    assert_eq!(pick_route(None, None, None, None), Ok(Route::Unmatched));
}
