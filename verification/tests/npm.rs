use bagpack_core::json::Json;
use bagpack_core::npm::{
    dependency_entry, installed_from_document, outdated_entry, outdated_from_document,
    parse_installed, parse_outdated,
};
use bagpack_core::CollectionError;

fn pair(name: &str, version: &str) -> (String, String) {
    (name.to_string(), version.to_string())
}

fn text(value: &str) -> Json {
    Json::Text(value.to_string())
}

fn object(members: Vec<(&str, Json)>) -> Json {
    Json::Object(members.into_iter().map(|(key, value)| (key.to_string(), value)).collect())
}

#[test]
fn dependency_without_version_is_dropped() {
    let name = "typescript".to_string();
    assert_eq!(
        dependency_entry(&name, &object(vec![("version", text("5.5.2"))])),
        Ok(Some(pair("typescript", "5.5.2")))
    );
    assert_eq!(dependency_entry(&name, &object(vec![])), Ok(None));
    assert_eq!(dependency_entry(&name, &object(vec![("version", Json::Null)])), Ok(None));
    assert_eq!(
        dependency_entry(&name, &object(vec![("version", Json::Number("5".to_string()))])),
        Err("invalid type: expected a string or null".to_string())
    );
    assert_eq!(
        dependency_entry(&name, &text("5.5.2")),
        Err("invalid type: expected an object".to_string())
    );
}

#[test]
fn installed_tree_may_lack_dependencies() {
    assert_eq!(
        installed_from_document(&object(vec![("name", text("lib"))])).map(|t| t.into_entries()),
        Ok(vec![])
    );
    assert_eq!(
        installed_from_document(&object(vec![("dependencies", object(vec![]))]))
            .map(|t| t.into_entries()),
        Ok(vec![])
    );
    assert_eq!(
        installed_from_document(&object(vec![("dependencies", Json::Null)]))
            .map(|t| t.into_entries()),
        Err("invalid type: expected an object".to_string())
    );
    assert_eq!(
        installed_from_document(&Json::Array(vec![])).map(|t| t.into_entries()),
        Err("invalid type: expected an object".to_string())
    );
}

#[test]
fn installed_output_is_read_as_json() {
    let text = "{\"name\":\"lib\",\"dependencies\":{\"typescript\":{\"version\":\"5.5.2\",\"overridden\":false},\"npm\":{\"version\":\"10.8.1\"},\"broken\":{}}}";
    assert_eq!(
        parse_installed(text).map(|t| t.into_entries()),
        Ok(vec![pair("npm", "10.8.1"), pair("typescript", "5.5.2")])
    );
    assert_eq!(
        parse_installed("").map(|t| t.into_entries()),
        Err(CollectionError::Json("EOF while parsing a value at line 1 column 0".to_string()))
    );
    assert_eq!(
        parse_installed("{\"dependencies\":{\"a\":\"1\"}}").map(|t| t.into_entries()),
        Err(CollectionError::Json("invalid type: expected an object".to_string()))
    );
}

#[test]
fn outdated_member_without_latest_is_skipped() {
    let name = "typescript".to_string();
    assert_eq!(
        outdated_entry(&name, &object(vec![("current", text("5.5.2")), ("latest", text("5.6.3"))])),
        Some(pair("typescript", "5.6.3"))
    );
    assert_eq!(outdated_entry(&name, &object(vec![("wanted", text("5.6.3"))])), None);
    assert_eq!(outdated_entry(&name, &object(vec![("latest", Json::Null)])), None);
    assert_eq!(outdated_entry(&name, &text("5.6.3")), None);
    assert_eq!(outdated_entry(&name, &Json::Array(vec![text("5.6.3")])), None);
}

#[test]
fn outdated_report_that_is_no_object_reports_nothing() {
    assert_eq!(outdated_from_document(&Json::Array(vec![])).len(), 0);
    assert_eq!(outdated_from_document(&Json::Null).len(), 0);
    let report = object(vec![
        ("a", object(vec![("latest", text("2"))])),
        ("b", object(vec![])),
        ("c", object(vec![("latest", text("4"))])),
    ]);
    assert_eq!(outdated_from_document(&report).into_entries(), vec![pair("a", "2"), pair("c", "4")]);
}

#[test]
fn blank_npm_outdated_output_means_nothing_outdated() {
    assert_eq!(parse_outdated("").map(|t| t.len()), Ok(0));
    assert_eq!(parse_outdated("\n").map(|t| t.len()), Ok(0));
    assert_eq!(parse_outdated("{}").map(|t| t.len()), Ok(0));
}

#[test]
fn npm_outdated_output_is_read_as_json() {
    let text = "{\"typescript\":{\"current\":\"5.5.2\",\"wanted\":\"5.6.3\",\"latest\":\"5.6.3\",\"location\":\"x\"}}";
    assert_eq!(
        parse_outdated(text).map(|t| t.into_entries()),
        Ok(vec![pair("typescript", "5.6.3")])
    );
    assert_eq!(
        parse_outdated("{\"a\"").map(|t| t.into_entries()),
        Err(CollectionError::Json("EOF while parsing an object at line 1 column 4".to_string()))
    );
}
