use blogdrown::api::{
    carries_value, find_char, quoted_field, same_text, ApiJson, Created, DataError, Error, JsonRejection, QueryFailure, Status,
};

#[test]
fn new_error_has_no_fields() {
    let e = Error::new("Not Found");
    assert_eq!(e.message(), "Not Found");
    assert_eq!(e.len(), 0);
    assert_eq!(e.get("anything"), None);
}

#[test]
fn add_records_and_replaces() {
    let mut e = Error::new("m");
    e.add("username", "taken");
    e.add("email", "taken too");
    assert_eq!(e.len(), 2);
    assert_eq!(e.get("username"), Some("taken"));
    assert_eq!(e.get("email"), Some("taken too"));
    e.add("username", "still taken");
    assert_eq!(e.len(), 2);
    assert_eq!(e.get("username"), Some("still taken"));
    assert_eq!(e.get("email"), Some("taken too"));
    assert_eq!(e.entry(0), ("username", "still taken"));
    assert_eq!(e.entry(1), ("email", "taken too"));
    assert_eq!(e.message(), "m");
}

#[test]
fn status_codes() {
    assert_eq!(Status::Success.code(), 200);
    assert_eq!(Status::Created.code(), 201);
    assert_eq!(Status::BadRequest.code(), 400);
    assert_eq!(Status::Unauthorized.code(), 401);
    assert_eq!(Status::Forbidden.code(), 403);
    assert_eq!(Status::NotFound.code(), 404);
    assert_eq!(Status::UnprocessableEntity.code(), 422);
    assert_eq!(Status::InternalServerError.code(), 500);
}

#[test]
fn query_failures_are_internal_errors() {
    let (s, e) = Error::from_query(QueryFailure::UniqueKeyViolation);
    assert_eq!(s, Status::InternalServerError);
    assert_eq!(e.message(), "Prisma Validation Error");
    assert_eq!(e.len(), 1);
    assert_eq!(e.get("unique"), Some("Unique Constraint violated"));

    let (s, e) = Error::from_query(QueryFailure::RecordNotFound);
    assert_eq!(s, Status::InternalServerError);
    assert_eq!(e.len(), 1);
    assert_eq!(e.get("notfound"), Some("Record Not Found in database"));

    let (s, e) = Error::from_query(QueryFailure::Other);
    assert_eq!(s, Status::InternalServerError);
    assert_eq!(e.message(), "Prisma Validation Error");
    assert_eq!(e.len(), 0);
}

#[test]
fn not_found_answer() {
    let (s, e) = Error::not_found();
    assert_eq!(s, Status::NotFound);
    assert_eq!(e.message(), "Not Found");
    assert_eq!(e.len(), 0);
}

#[test]
fn created_is_created() {
    let c = Created::json(5u8);
    assert_eq!(c.0, 5);
    assert_eq!(c.status(), Status::Created);
}

#[test]
fn rejections_without_detail() {
    let cases = [
        (JsonRejection::Bytes, "Body malformed, unprocessable"),
        (JsonRejection::Syntax, "Json data in body malformed"),
        (JsonRejection::MissingContentType, "Missing Content-Type header"),
        (JsonRejection::Data(None), "Json Data Validation Error"),
        (JsonRejection::Unknown, "Unknown JSON Rejection Error"),
    ];
    for (r, text) in cases {
        let (s, e) = ApiJson::<()>::rejection(r);
        assert_eq!(s, Status::UnprocessableEntity);
        assert_eq!(e.message(), text);
        assert_eq!(e.len(), 0);
    }
}

#[test]
fn rejection_at_a_path_names_the_path() {
    let d = DataError { path: "username".to_string(), inner: "invalid length 3".to_string() };
    let (s, e) = ApiJson::<()>::rejection(JsonRejection::Data(Some(d)));
    assert_eq!(s, Status::UnprocessableEntity);
    assert_eq!(e.message(), "Json Data Validation Error");
    assert_eq!(e.len(), 1);
    assert_eq!(e.get("username"), Some("invalid length 3"));
}

#[test]
fn rejection_without_a_path_names_the_quoted_field() {
    let d = DataError { path: ".".to_string(), inner: "missing field `email` at line 1 column 20".to_string() };
    let (_, e) = ApiJson::<()>::rejection(JsonRejection::Data(Some(d)));
    assert_eq!(e.len(), 1);
    assert_eq!(e.get("email"), Some("Field was not passed"));
}

#[test]
fn rejection_without_a_path_or_a_quote_names_nothing() {
    let d = DataError { path: ".".to_string(), inner: "expected value".to_string() };
    let (_, e) = ApiJson::<()>::rejection(JsonRejection::Data(Some(d)));
    assert_eq!(e.len(), 0);
    let d = DataError { path: ".".to_string(), inner: "one ` only".to_string() };
    let (_, e) = ApiJson::<()>::rejection(JsonRejection::Data(Some(d)));
    assert_eq!(e.len(), 0);
}

#[test]
fn quoted_field_edges() {
    assert_eq!(quoted_field("a `b` c `d`"), Some("b".to_string()));
    assert_eq!(quoted_field("``"), Some(String::new()));
    assert_eq!(quoted_field("`é日`"), Some("é日".to_string()));
    assert_eq!(quoted_field("`"), None);
    assert_eq!(quoted_field(""), None);
}

#[test]
fn find_char_counts_characters() {
    assert_eq!(find_char("héllo", 'l', 0), 2);
    assert_eq!(find_char("héllo", 'l', 3), 3);
    assert_eq!(find_char("héllo", 'x', 0), 5);
    assert_eq!(find_char("héllo", 'h', 9), 5);
}

#[test]
fn same_text_compares_content() {
    assert!(same_text("abc", "abc"));
    assert!(!same_text("abc", "abd"));
    assert!(!same_text("abc", "ab"));
    assert!(same_text("", ""));
}

#[test]
fn only_success_carries_a_value() {
    assert!(carries_value(200));
    assert!(carries_value(201));
    assert!(carries_value(299));
    assert!(!carries_value(199));
    assert!(!carries_value(300));
    assert!(!carries_value(404));
    assert!(!carries_value(0));
}
