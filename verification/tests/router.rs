use actix_todo::api::UpdateParams;
use actix_todo::router::{read_id, route, Method, Route, TODO, TODO_PREFIX};
use actix_todo::text::{chars_of, occurs_from, same_text, starts_with};

fn id_of(text: &str) -> Option<i32> {
    read_id(&text.chars().collect(), 0)
}

#[test]
fn get_root_is_index() {
    assert_eq!(route(Method::Get, "/"), Route::Index);
}

#[test]
fn post_todo_is_create() {
    assert_eq!(TODO, "/todo");
    assert_eq!(route(Method::Post, "/todo"), Route::Create);
}

#[test]
fn post_todo_id_is_update() {
    assert_eq!(TODO_PREFIX, "/todo/");
    assert_eq!(route(Method::Post, "/todo/7"), Route::Update(UpdateParams { id: 7 }));
    assert_eq!(route(Method::Post, "/todo/-12"), Route::Update(UpdateParams { id: -12 }));
    assert_eq!(route(Method::Post, "/todo/+5"), Route::Update(UpdateParams { id: 5 }));
    assert_eq!(route(Method::Post, "/todo/007"), Route::Update(UpdateParams { id: 7 }));
    assert_eq!(
        route(Method::Post, "/todo/2147483647"),
        Route::Update(UpdateParams { id: 2147483647 })
    );
    assert_eq!(
        route(Method::Post, "/todo/-2147483648"),
        Route::Update(UpdateParams { id: -2147483648 })
    );
}

#[test]
fn id_that_is_no_number_is_not_found() {
    assert_eq!(route(Method::Post, "/todo/abc"), Route::NotFound);
    assert_eq!(route(Method::Post, "/todo/1a"), Route::NotFound);
    assert_eq!(route(Method::Post, "/todo/-"), Route::NotFound);
    assert_eq!(route(Method::Post, "/todo/+"), Route::NotFound);
    assert_eq!(route(Method::Post, "/todo/1.5"), Route::NotFound);
    assert_eq!(route(Method::Post, "/todo/ 1"), Route::NotFound);
    assert_eq!(route(Method::Post, "/todo/2147483648"), Route::NotFound);
    assert_eq!(route(Method::Post, "/todo/-2147483649"), Route::NotFound);
    assert_eq!(route(Method::Post, "/todo/99999999999999999999999"), Route::NotFound);
    assert_eq!(route(Method::Post, "/todo/%37"), Route::NotFound);
    assert_eq!(route(Method::Post, "/todo/\u{661}"), Route::NotFound);
}

#[test]
fn unknown_paths_are_not_found() {
    assert_eq!(route(Method::Get, ""), Route::NotFound);
    assert_eq!(route(Method::Get, "/tod"), Route::NotFound);
    assert_eq!(route(Method::Post, "/todo/"), Route::NotFound);
    assert_eq!(route(Method::Post, "/todo/1/"), Route::NotFound);
    assert_eq!(route(Method::Post, "/todo/1/2"), Route::NotFound);
    assert_eq!(route(Method::Get, "/static/errors/400.html"), Route::NotFound);
    assert_eq!(route(Method::Post, "/todos"), Route::NotFound);
    assert_eq!(route(Method::Get, "//"), Route::NotFound);
}

#[test]
fn other_methods_are_not_allowed() {
    assert_eq!(route(Method::Post, "/"), Route::MethodNotAllowed);
    assert_eq!(route(Method::Head, "/"), Route::MethodNotAllowed);
    assert_eq!(route(Method::Get, "/todo"), Route::MethodNotAllowed);
    assert_eq!(route(Method::Put, "/todo/7"), Route::MethodNotAllowed);
    assert_eq!(route(Method::Delete, "/todo/7"), Route::MethodNotAllowed);
    assert_eq!(route(Method::Patch, "/todo/7"), Route::MethodNotAllowed);
    assert_eq!(route(Method::Options, "/todo/7"), Route::MethodNotAllowed);
    assert_eq!(route(Method::Other, "/todo/7"), Route::MethodNotAllowed);
    assert_eq!(route(Method::Get, "/todo/abc"), Route::MethodNotAllowed);
}

#[test]
fn read_id_reads_signed_decimal() {
    assert_eq!(id_of("0"), Some(0));
    assert_eq!(id_of("-0"), Some(0));
    assert_eq!(id_of("42"), Some(42));
    assert_eq!(id_of("+42"), Some(42));
    assert_eq!(id_of("-42"), Some(-42));
    assert_eq!(id_of("0000000000000000000000000000012"), Some(12));
    assert_eq!(id_of("2147483647"), Some(i32::MAX));
    assert_eq!(id_of("-2147483648"), Some(i32::MIN));
}

#[test]
fn read_id_turns_down_everything_else() {
    assert_eq!(id_of(""), None);
    assert_eq!(id_of("-"), None);
    assert_eq!(id_of("+"), None);
    assert_eq!(id_of("+-1"), None);
    assert_eq!(id_of("--1"), None);
    assert_eq!(id_of("1-"), None);
    assert_eq!(id_of("12x"), None);
    assert_eq!(id_of("x12"), None);
    assert_eq!(id_of("2147483648"), None);
    assert_eq!(id_of("-2147483649"), None);
    assert_eq!(id_of("21474836470"), None);
}

#[test]
fn read_id_starts_where_it_is_told() {
    let text: Vec<char> = "/todo/31".chars().collect();
    assert_eq!(read_id(&text, 6), Some(31));
    assert_eq!(read_id(&text, 7), Some(1));
    assert_eq!(read_id(&text, 8), None);
    assert_eq!(read_id(&text, 0), None);
}

#[test]
fn chars_of_gives_characters_not_bytes() {
    assert_eq!(chars_of("a\u{e9}b"), vec!['a', '\u{e9}', 'b']);
    assert_eq!(chars_of(""), Vec::new());
}

#[test]
fn text_helpers() {
    let text = chars_of("/todo/1");
    assert!(starts_with(&text, &chars_of("/todo/")));
    assert!(starts_with(&text, &chars_of("")));
    assert!(starts_with(&text, &text));
    assert!(!starts_with(&text, &chars_of("/todo/12")));
    assert!(!starts_with(&text, &chars_of("/tode")));
    assert!(same_text(&text, &chars_of("/todo/1")));
    assert!(!same_text(&text, &chars_of("/todo/2")));
    assert!(!same_text(&text, &chars_of("/todo/")));
    assert!(occurs_from(&text, 0, '/'));
    assert!(occurs_from(&text, 5, '/'));
    assert!(!occurs_from(&text, 6, '/'));
    assert!(!occurs_from(&text, 7, '1'));
}
