use rest_crud::model::ResourceKind;
use rest_crud::response::{Failure, Invalid};
use rest_crud::route::{parse_id, route, Method, Route};

#[test]
fn collection_routes() {
    assert_eq!(route(ResourceKind::User, Method::Get, b"/users"), Ok(Route::List));
    assert_eq!(route(ResourceKind::User, Method::Post, b"/users"), Ok(Route::Create));
    assert_eq!(route(ResourceKind::User, Method::Delete, b"/users"), Err(Failure::NotFound));
}

#[test]
fn item_routes() {
    assert_eq!(route(ResourceKind::Post, Method::Get, b"/posts/12"), Ok(Route::Get(12)));
    assert_eq!(route(ResourceKind::Post, Method::Put, b"/posts/3"), Ok(Route::Update(3)));
    assert_eq!(route(ResourceKind::Post, Method::Delete, b"/posts/0"), Ok(Route::Delete(0)));
    assert_eq!(route(ResourceKind::Post, Method::Post, b"/posts/3"), Err(Failure::NotFound));
}

#[test]
fn bad_id_segment() {
    let bad = Err(Failure::Invalid(Invalid::BadId));
    assert_eq!(route(ResourceKind::Post, Method::Get, b"/posts/x1"), bad);
    assert_eq!(route(ResourceKind::Post, Method::Put, b"/posts/9223372036854775808"), bad);
    assert_eq!(route(ResourceKind::Post, Method::Delete, b"/posts/-"), bad);
}

#[test]
fn unmatched_paths() {
    let nf = Err(Failure::NotFound);
    assert_eq!(route(ResourceKind::Post, Method::Get, b"/"), nf);
    assert_eq!(route(ResourceKind::Post, Method::Get, b"/posts/"), nf);
    assert_eq!(route(ResourceKind::Post, Method::Get, b"/posts/1/2"), nf);
    assert_eq!(route(ResourceKind::Post, Method::Get, b"/postsx"), nf);
    assert_eq!(route(ResourceKind::Post, Method::Get, b"/users/1"), nf);
    assert_eq!(route(ResourceKind::Post, Method::Other, b"/posts"), nf);
}

#[test]
fn parse_id_values() {
    assert_eq!(parse_id(b"0"), Some(0));
    assert_eq!(parse_id(b"42"), Some(42));
    assert_eq!(parse_id(b"+7"), Some(7));
    assert_eq!(parse_id(b"-15"), Some(-15));
    assert_eq!(parse_id(b"9223372036854775807"), Some(i64::MAX));
    assert_eq!(parse_id(b"-9223372036854775808"), Some(i64::MIN));
    assert_eq!(parse_id(b"9223372036854775808"), None);
    assert_eq!(parse_id(b"99999999999999999999999"), None);
    assert_eq!(parse_id(b""), None);
    assert_eq!(parse_id(b"+"), None);
    assert_eq!(parse_id(b"1a"), None);
    assert_eq!(parse_id(b" 1"), None);
}

#[test]
fn segment_bytes() {
    assert_eq!(ResourceKind::User.segment(), b"users".to_vec());
    assert_eq!(ResourceKind::Post.segment(), b"posts".to_vec());
}
