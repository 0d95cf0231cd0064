use fast_qr::convert::svg::SvgBuilder;
use fast_qr::convert::{Builder, Shape};
use fast_qr::QRBuilder;
use qr_service::dispatch::{begin, complete, dispatch, InboundRequest, Step};
use qr_service::guard::BodyBuffer;
use qr_service::render::Renderer;
use qr_service::response::{ContentType, Response};
use qr_service::route::Method;

const USAGE: &str =
    "Try POSTing data to /build such as: `curl localhost:3000/build -XPOST -d \"Hello World!\"`";

fn request(method: Method, path: &str, declared: Option<u64>, body: &[u8]) -> InboundRequest {
    InboundRequest {
        method,
        path: path.to_string(),
        declared_body_size: declared,
        body: vec![body.to_vec()],
    }
}

fn post(path: &str, body: &[u8]) -> Response {
    dispatch(&request(Method::Post, path, Some(body.len() as u64), body))
}

fn too_large() -> Response {
    Response {
        status: 413,
        content_type: Some(ContentType::TextPlain),
        body: b"Body too big".to_vec(),
    }
}

fn not_found() -> Response {
    Response { status: 404, content_type: None, body: vec![] }
}

#[test]
fn get_root_returns_the_usage_text() {
    let response = dispatch(&request(Method::Get, "/", None, b""));
    assert_eq!(response.status, 200);
    assert_eq!(response.content_type, Some(ContentType::TextPlain));
    assert_eq!(response.body, USAGE.as_bytes());
}

#[test]
fn get_root_does_not_look_at_the_body() {
    let expected = dispatch(&request(Method::Get, "/", None, b""));
    for declared in [None, Some(0), Some(12), Some(65537), Some(u64::MAX)] {
        assert_eq!(dispatch(&request(Method::Get, "/", declared, b"")), expected);
        assert_eq!(dispatch(&request(Method::Get, "/", declared, &[0x80])), expected);
        assert_eq!(dispatch(&request(Method::Get, "/", declared, &vec![0u8; 70000])), expected);
    }
}

#[test]
fn undefined_paths_return_404_with_an_empty_body() {
    assert_eq!(dispatch(&request(Method::Get, "/nope", None, b"")), not_found());
    assert_eq!(dispatch(&request(Method::Get, "/build", None, b"")), not_found());
    assert_eq!(dispatch(&request(Method::Post, "/", Some(2), b"hi")), not_found());
    assert_eq!(dispatch(&request(Method::Post, "/build/", Some(2), b"hi")), not_found());
    assert_eq!(dispatch(&request(Method::Other, "/build", Some(2), b"hi")), not_found());
    assert_eq!(dispatch(&request(Method::Other, "/", None, b"")), not_found());
}

#[test]
fn undefined_paths_do_not_look_at_the_body() {
    assert_eq!(dispatch(&request(Method::Post, "/nope", Some(u64::MAX), b"")), not_found());
    assert_eq!(dispatch(&request(Method::Post, "/nope", None, &vec![0u8; 70000])), not_found());
    assert_eq!(dispatch(&request(Method::Get, "/nope", None, &[0x80])), not_found());
}

#[test]
fn hello_world_as_text() {
    let response = post("/build", b"Hello World!");
    assert_eq!(response.status, 200);
    assert_eq!(response.content_type, Some(ContentType::TextPlain));
    let expected = QRBuilder::new("Hello World!").build().unwrap().to_str();
    assert_eq!(response.body, expected.into_bytes());
    assert!(!response.body.is_empty());
}

#[test]
fn hello_world_as_svg() {
    let response = post("/build/svg", b"Hello World!");
    assert_eq!(response.status, 200);
    assert_eq!(response.content_type, Some(ContentType::SvgXml));
    assert!(response.body.starts_with(b"<svg "));
    let qr = QRBuilder::new("Hello World!").build().unwrap();
    let expected = SvgBuilder::default().shape(Shape::RoundedSquare).to_str(&qr);
    assert_eq!(response.body, expected.into_bytes());
}

#[test]
fn hello_world_as_png() {
    let response = post("/build/png", b"Hello World!");
    assert_eq!(response.status, 200);
    assert_eq!(response.content_type, Some(ContentType::Png));
    assert_eq!(&response.body[..4], &[0x89, b'P', b'N', b'G']);
}

#[test]
fn same_request_same_response() {
    for path in ["/build", "/build/svg"] {
        let first = post(path, "some text, twice".as_bytes());
        let second = post(path, "some text, twice".as_bytes());
        assert_eq!(first.status, 200);
        assert_eq!(first, second);
    }
}

#[test]
fn declared_size_over_the_ceiling_returns_413() {
    for path in ["/build", "/build/svg", "/build/png"] {
        let response = dispatch(&request(Method::Post, path, Some(65537), b"Hello World!"));
        assert_eq!(response, too_large());
    }
}

#[test]
fn body_over_the_ceiling_returns_413() {
    let body = vec![b'a'; 65537];
    for path in ["/build", "/build/svg", "/build/png"] {
        assert_eq!(post(path, &body), too_large());
        assert_eq!(dispatch(&request(Method::Post, path, None, &body)), too_large());
        assert_eq!(dispatch(&request(Method::Post, path, Some(12), &body)), too_large());
    }
}

#[test]
fn body_over_the_ceiling_in_chunks_returns_413() {
    let request = InboundRequest {
        method: Method::Post,
        path: "/build".to_string(),
        declared_body_size: None,
        body: vec![vec![b'a'; 30000], vec![b'b'; 30000], vec![b'c'; 30000], vec![b'd'; 30000]],
    };
    assert_eq!(dispatch(&request), too_large());
}

#[test]
fn body_at_the_ceiling_is_read_whole() {
    let body = vec![b'a'; 65536];
    let response = post("/build", &body);
    assert_eq!(response.status, 422);
    assert_eq!(response.content_type, Some(ContentType::TextPlain));
    assert_eq!(response.body, b"Text does not fit in a QR code");
}

#[test]
fn body_that_is_not_utf8_returns_400() {
    for path in ["/build", "/build/svg", "/build/png"] {
        let response = post(path, &[0x80]);
        assert_eq!(response.status, 400);
        assert_ne!(response.status, 200);
        assert_ne!(response.status, 413);
        assert_eq!(response.content_type, Some(ContentType::TextPlain));
        assert_eq!(response.body, b"Body is not valid UTF-8");
    }
}

#[test]
fn text_over_capacity_returns_422() {
    let body = vec![b'x'; 3000];
    for path in ["/build", "/build/svg", "/build/png"] {
        let response = post(path, &body);
        assert_eq!(response.status, 422);
        assert_eq!(response.body, b"Text does not fit in a QR code");
    }
}

#[test]
fn chunks_are_joined_before_rendering() {
    let whole = post("/build", b"Hello World!");
    let in_chunks = dispatch(&InboundRequest {
        method: Method::Post,
        path: "/build".to_string(),
        declared_body_size: None,
        body: vec![b"Hel".to_vec(), vec![], b"lo Wor".to_vec(), b"ld!".to_vec()],
    });
    assert_eq!(whole, in_chunks);
    let no_chunks = dispatch(&InboundRequest {
        method: Method::Post,
        path: "/build".to_string(),
        declared_body_size: Some(0),
        body: vec![],
    });
    assert_eq!(no_chunks, post("/build", b""));
    assert_eq!(no_chunks.status, 200);
}

#[test]
fn character_cut_by_a_chunk_boundary_is_still_text() {
    let text = "é".as_bytes();
    let response = dispatch(&InboundRequest {
        method: Method::Post,
        path: "/build".to_string(),
        declared_body_size: Some(2),
        body: vec![vec![text[0]], vec![text[1]]],
    });
    assert_eq!(response, post("/build", text));
    assert_eq!(response.status, 200);
}

#[test]
fn begin_answers_at_once_or_asks_for_the_body() {
    assert_eq!(begin(Method::Post, "/build", Some(12)), Step::ReadBody(Renderer::Glyphs));
    assert_eq!(begin(Method::Post, "/build/svg", None), Step::ReadBody(Renderer::Vector));
    assert_eq!(begin(Method::Post, "/build/png", Some(65536)), Step::ReadBody(Renderer::Raster));
    assert_eq!(begin(Method::Post, "/build", Some(65537)), Step::Respond(too_large()));
    assert_eq!(begin(Method::Post, "/build/png", Some(u64::MAX)), Step::Respond(too_large()));
    assert_eq!(begin(Method::Get, "/nope", Some(u64::MAX)), Step::Respond(not_found()));
    match begin(Method::Get, "/", Some(u64::MAX)) {
        Step::Respond(response) => {
            assert_eq!(response.status, 200);
            assert_eq!(response.body, USAGE.as_bytes());
        }
        Step::ReadBody(_) => panic!("the usage text needs no body"),
    }
}

#[test]
fn complete_answers_from_what_was_read() {
    let mut buffer = BodyBuffer::new();
    assert!(buffer.push(b"Hello "));
    assert!(buffer.push(b"World!"));
    assert_eq!(complete(Renderer::Glyphs, buffer), post("/build", b"Hello World!"));

    let mut over = BodyBuffer::new();
    assert!(!over.push(&vec![0u8; 65537]));
    assert_eq!(complete(Renderer::Vector, over), too_large());

    let mut invalid = BodyBuffer::new();
    assert!(invalid.push(&[0x80]));
    assert_eq!(complete(Renderer::Raster, invalid).status, 400);
}

#[test]
fn steps_agree_with_dispatch() {
    let body = b"step by step";
    for (path, declared) in [("/build", Some(12)), ("/build/svg", None), ("/nope", None)] {
        let expected = dispatch(&request(Method::Post, path, declared, body));
        let stepped = match begin(Method::Post, path, declared) {
            Step::Respond(response) => response,
            Step::ReadBody(renderer) => {
                let mut buffer = BodyBuffer::new();
                assert!(buffer.push(body));
                complete(renderer, buffer)
            }
        };
        assert_eq!(stepped, expected);
    }
}
