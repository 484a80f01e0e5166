use rsys::config::DbTester;
use rsys::ident::{id_text, parse_id};

const V: u128 = 0x67e5504410b1426f9247bb680e5fe0c8;

#[test]
fn parses_every_accepted_form() {
    assert_eq!(parse_id("67e55044-10b1-426f-9247-bb680e5fe0c8"), Some(V));
    assert_eq!(parse_id("67E55044-10B1-426F-9247-BB680E5FE0C8"), Some(V));
    assert_eq!(parse_id("67e5504410b1426f9247bb680e5fe0c8"), Some(V));
    assert_eq!(parse_id("{67e55044-10b1-426f-9247-bb680e5fe0c8}"), Some(V));
    assert_eq!(parse_id("urn:uuid:67e55044-10b1-426f-9247-bb680e5fe0c8"), Some(V));
    assert_eq!(parse_id("URN:UUID:67e55044-10b1-426f-9247-bb680e5fe0c8"), Some(V));
}

#[test]
fn rejects_malformed_ids() {
    assert_eq!(parse_id(""), None);
    assert_eq!(parse_id("data.id.as_str()"), None);
    assert_eq!(parse_id("67e55044-10b1-426f-9247-bb680e5fe0c"), None);
    assert_eq!(parse_id("67e55044x10b1-426f-9247-bb680e5fe0c8"), None);
    assert_eq!(parse_id("g7e55044-10b1-426f-9247-bb680e5fe0c8"), None);
    assert_eq!(parse_id("(67e55044-10b1-426f-9247-bb680e5fe0c8)"), None);
    assert_eq!(parse_id("urn:uid::67e55044-10b1-426f-9247-bb680e5fe0c8"), None);
}

#[test]
fn id_text_is_lower_hyphenated() {
    assert_eq!(id_text(V), "67e55044-10b1-426f-9247-bb680e5fe0c8");
    assert_eq!(id_text(0), "00000000-0000-0000-0000-000000000000");
    assert_eq!(parse_id(&id_text(u128::MAX)), Some(u128::MAX));
}

#[test]
fn test_database_names() {
    let t = DbTester::new("postgres://localhost:5432", V);
    assert_eq!(t.dbname, "test_67e55044-10b1-426f-9247-bb680e5fe0c8");
    assert_eq!(t.server_url, "postgres://localhost:5432/test_67e55044-10b1-426f-9247-bb680e5fe0c8");
}
