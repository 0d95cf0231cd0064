use qr_service::render::{select, Renderer};
use qr_service::route::{bytes_eq, route, str_eq, Method, Route};

#[test]
fn get_root_is_instructions() {
    assert_eq!(route(Method::Get, "/"), Route::Instructions);
}

#[test]
fn post_build_routes() {
    assert_eq!(route(Method::Post, "/build"), Route::BuildText);
    assert_eq!(route(Method::Post, "/build/svg"), Route::BuildVector);
    assert_eq!(route(Method::Post, "/build/png"), Route::BuildRaster);
}

#[test]
fn method_must_match_the_table() {
    assert_eq!(route(Method::Post, "/"), Route::NotFound);
    assert_eq!(route(Method::Get, "/build"), Route::NotFound);
    assert_eq!(route(Method::Get, "/build/svg"), Route::NotFound);
    assert_eq!(route(Method::Get, "/build/png"), Route::NotFound);
    assert_eq!(route(Method::Other, "/"), Route::NotFound);
    assert_eq!(route(Method::Other, "/build"), Route::NotFound);
}

#[test]
fn paths_match_exactly() {
    assert_eq!(route(Method::Get, "/nope"), Route::NotFound);
    assert_eq!(route(Method::Get, ""), Route::NotFound);
    assert_eq!(route(Method::Get, "//"), Route::NotFound);
    assert_eq!(route(Method::Post, "/build/"), Route::NotFound);
    assert_eq!(route(Method::Post, "/build/svg/"), Route::NotFound);
    assert_eq!(route(Method::Post, "/build/jpg"), Route::NotFound);
    assert_eq!(route(Method::Post, "/Build"), Route::NotFound);
    assert_eq!(route(Method::Post, "/build/png/extra"), Route::NotFound);
    assert_eq!(route(Method::Post, "/buil"), Route::NotFound);
}

#[test]
fn method_tokens() {
    assert_eq!(Method::from_token("GET"), Method::Get);
    assert_eq!(Method::from_token("POST"), Method::Post);
    assert_eq!(Method::from_token("PUT"), Method::Other);
    assert_eq!(Method::from_token("DELETE"), Method::Other);
    assert_eq!(Method::from_token("get"), Method::Other);
    assert_eq!(Method::from_token(""), Method::Other);
    assert_eq!(Method::from_token("POSTS"), Method::Other);
}

#[test]
fn build_routes_read_the_body() {
    assert!(Route::BuildText.reads_body());
    assert!(Route::BuildVector.reads_body());
    assert!(Route::BuildRaster.reads_body());
    assert!(!Route::Instructions.reads_body());
    assert!(!Route::NotFound.reads_body());
}

#[test]
fn renderer_of_each_route() {
    assert_eq!(select(Route::BuildText), Some(Renderer::Glyphs));
    assert_eq!(select(Route::BuildVector), Some(Renderer::Vector));
    assert_eq!(select(Route::BuildRaster), Some(Renderer::Raster));
    assert_eq!(select(Route::Instructions), None);
    assert_eq!(select(Route::NotFound), None);
}

#[test]
fn string_equality() {
    assert!(str_eq("", ""));
    assert!(str_eq("/build", "/build"));
    assert!(!str_eq("/build", "/builD"));
    assert!(!str_eq("/build", "/build/"));
    assert!(str_eq("héllo", "héllo"));
    assert!(!str_eq("héllo", "hello"));
}

#[test]
fn byte_equality() {
    assert!(bytes_eq(&[], &[]));
    assert!(bytes_eq(&[1, 2, 3], &[1, 2, 3]));
    assert!(!bytes_eq(&[1, 2, 3], &[1, 2, 4]));
    assert!(!bytes_eq(&[1, 2, 3], &[1, 2]));
    assert!(!bytes_eq(&[], &[0]));
}
