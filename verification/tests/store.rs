use treq::config::AppFile;
use treq::config::UUID;
use treq::doc::DocsFactory;
use treq::response::Response;
use treq::response::INTERNAL_ERROR_STATUS;

#[test]
fn internal_error_response_carries_the_message() {
    let r = Response::default_internal_error(String::from("connection refused"));
    assert_eq!(r.status, 77);
    assert_eq!(r.status, INTERNAL_ERROR_STATUS);
    assert_eq!(r.response_time, 0);
    assert!(r.headers.is_empty());
    assert_eq!(r.body, "connection refused");
}

#[test]
fn replace_overwrites_the_whole_response() {
    let mut r = Response::default();
    assert_eq!(r.status, 0);
    assert_eq!(r.body, "");
    r.replace(Response::default_internal_error(String::from("boom")));
    assert_eq!(r.status, 77);
    assert_eq!(r.body, "boom");
}

// A fresh identifier is drawn outside the library; only its shape is
// promised. Two draws colliding is as good as impossible, and the text is
// never the empty value a stub would return.
#[test]
fn fresh_uuid_has_the_hyphenated_shape() {
    let id = UUID::new();
    assert_eq!(id.value.len(), 36);
    for (i, c) in id.value.chars().enumerate() {
        if i == 8 || i == 13 || i == 18 || i == 23 {
            assert_eq!(c, '-');
        } else {
            assert!(c.is_ascii_digit() || ('a'..='f').contains(&c));
        }
    }
    let other = UUID::new();
    assert_eq!(other.value.len(), 36);
    assert_ne!(id.value, other.value);
}

#[test]
fn uuid_from_keeps_the_value() {
    let id = UUID::from(String::from("my-fixed-id"));
    assert_eq!(id.value, "my-fixed-id");
}

#[test]
fn app_file_keeps_its_path() {
    let file = AppFile::init(String::from("/tmp/treq/requests.json"));
    assert_eq!(file.get_path(), "/tmp/treq/requests.json");
}

#[test]
fn help_reader_holds_the_content_it_was_given() {
    let handler = DocsFactory::help_reader(String::from("{\"title\": \"help\"}"));
    assert_eq!(handler.doc_view.content, "{\"title\": \"help\"}");
}
