use dbv::application::app::{AppAction, UpdateAction};
use dbv::application::store::StoreAction;
use dbv::sql::database::Database;
use dbv::sql::parser::{SqlParser, ValueKind};
use dbv::sql::records::Records;
use dbv::sql::tables::Tables;

#[test]
fn column_types_map_to_conversions() {
    assert_eq!(SqlParser::value_kind("TINYINT"), ValueKind::Int16);
    assert_eq!(SqlParser::value_kind("INT UNSIGNED"), ValueKind::Int32);
    assert_eq!(SqlParser::value_kind("BIGINT"), ValueKind::Int64);
    assert_eq!(SqlParser::value_kind("FLOAT"), ValueKind::Float32);
    assert_eq!(SqlParser::value_kind("DOUBLE"), ValueKind::Float64);
    assert_eq!(SqlParser::value_kind("VARCHAR"), ValueKind::Text);
    assert_eq!(SqlParser::value_kind("BLOB"), ValueKind::Blob);
    assert_eq!(SqlParser::value_kind("BOOLEAN"), ValueKind::Bool);
    assert_eq!(SqlParser::value_kind("INTEGER"), ValueKind::Int32);
    assert_eq!(SqlParser::value_kind("REAL"), ValueKind::Float64);
    assert_eq!(SqlParser::value_kind("INT2"), ValueKind::Int16);
    assert_eq!(SqlParser::value_kind("DOUBLE PRECISION"), ValueKind::Float64);
    assert_eq!(SqlParser::value_kind("BYTEA"), ValueKind::Blob);
    assert_eq!(SqlParser::value_kind("JSONB"), ValueKind::Unsupported);
    assert_eq!(SqlParser::value_kind("int"), ValueKind::Unsupported);
    assert_eq!(SqlParser::value_kind(""), ValueKind::Unsupported);
}

#[test]
fn markers_for_blob_and_unsupported() {
    assert_eq!(SqlParser::marker(ValueKind::Blob), Some("BLOB..."));
    assert_eq!(SqlParser::marker(ValueKind::Unsupported), Some("UNIMPLEMENTED"));
    assert_eq!(SqlParser::marker(ValueKind::Text), None);
}

#[test]
fn catalog_query_texts() {
    assert_eq!(Database::query(), "SHOW databases");
    assert_eq!(
        Tables::query("shop"),
        "select table_name from information_schema.tables where table_schema='shop'"
    );
    assert_eq!(Records::rows_query("shop", "users"), "select * from shop.users LIMIT 100");
    assert_eq!(Records::count_query("shop", "users"), "select COUNT(*) from shop.users");
}

#[test]
fn each_fetch_posts_one_action() {
    let ok = Database::outcome(Ok(vec!["a".to_string()]));
    assert!(matches!(ok, UpdateAction::SendStoreAction(StoreAction::SendDatabaseData(v)) if v == vec!["a".to_string()]));
    let err = Database::outcome(Err("down".to_string()));
    assert!(matches!(err, UpdateAction::SendStoreAction(StoreAction::SendError(e)) if e == "down"));
    let tables = Tables::outcome(Ok(vec!["t".to_string()]));
    assert!(matches!(tables, UpdateAction::SendStoreAction(StoreAction::SendTablesData(v)) if v.len() == 1));
    let rows = Records::outcome(Ok((vec!["c".to_string()], vec![vec!["1".to_string()]])), Some(7));
    assert!(matches!(rows, UpdateAction::SendAppAction(AppAction::SendRecords(c, r, Some(7))) if c.len() == 1 && r.len() == 1));
    let failed = Records::outcome(Err("no table".to_string()), None);
    assert!(matches!(failed, UpdateAction::SendStoreAction(StoreAction::SendError(e)) if e == "no table"));
}
