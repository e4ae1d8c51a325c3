use auto_gippity::helpers::formatting::{
    debug_list, debug_optional_text, debug_text, join_texts, write_bool, write_list,
    write_optional,
};
use auto_gippity::models::agents::agent_traits::{
    debug_routes, FactSheet, ProjectScope, RouteObject,
};
use serde_json::{Number, Value};

fn object(entries: &[(&str, Value)]) -> Value {
    let mut map = serde_json::Map::new();
    for (key, value) in entries {
        map.insert(key.to_string(), value.clone());
    }
    Value::Object(map)
}

fn item_route() -> RouteObject {
    RouteObject {
        route: "/item/{id}".to_string(),
        is_route_dynamic: "true".to_string(),
        method: "get".to_string(),
        request_body: Value::String("None".to_string()),
        response: object(&[
            ("id", Value::String("number".to_string())),
            ("name", Value::String("string".to_string())),
            ("completed", Value::String("bool".to_string())),
        ]),
    }
}

fn odd_route() -> RouteObject {
    RouteObject {
        route: "/\"quoted\"\n".to_string(),
        is_route_dynamic: "false".to_string(),
        method: "GET".to_string(),
        request_body: Value::Array(vec![
            Value::Null,
            Value::Bool(true),
            Value::Number(Number::from(7)),
        ]),
        response: Value::Null,
    }
}

fn full_sheet() -> FactSheet {
    FactSheet {
        project_description: "build a \"shop\"\twith a back\\slash".to_string(),
        project_scope: Some(ProjectScope {
            is_crud_required: true,
            is_user_login_and_logout: false,
            is_external_urls_required: true,
        }),
        external_urls: Some(vec![
            "https://a.example/?q=\"x\"".to_string(),
            "https://b.example".to_string(),
        ]),
        backend_code: Some("fn main() {\n    println!(\"héllo\");\n}\n".to_string()),
        api_endpoint_schema: Some(vec![item_route(), odd_route()]),
    }
}

#[test]
fn string_is_written_as_debug_formatting_writes_it() {
    for text in ["", "plain", "with \"quotes\"", "line\nbreak\ttab", "back\\slash", "héllo \u{1}"] {
        assert_eq!(debug_text(text), format!("{:?}", text));
    }
    assert_eq!(debug_text("a\"b"), "\"a\\\"b\"");
}

#[test]
fn optional_string_is_written_as_debug_formatting_writes_it() {
    for value in [None, Some("".to_string()), Some("a \"b\"\n".to_string())] {
        assert_eq!(debug_optional_text(&value), format!("{:?}", value));
    }
    assert_eq!(debug_optional_text(&None), "None");
    assert_eq!(debug_optional_text(&Some("x".to_string())), "Some(\"x\")");
}

#[test]
fn list_of_strings_is_written_as_debug_formatting_writes_it() {
    for list in [vec![], vec!["a".to_string()], vec!["a".to_string(), "b \"c\"".to_string()]] {
        assert_eq!(debug_list(&list), format!("{:?}", list));
    }
    assert_eq!(debug_list(&vec!["a".to_string(), "b".to_string()]), "[\"a\", \"b\"]");
}

#[test]
fn truth_values_options_and_lists_are_laid_out_exactly() {
    assert_eq!(write_bool(true), "true");
    assert_eq!(write_bool(false), "false");
    assert_eq!(write_optional(None), "None");
    assert_eq!(write_optional(Some("7".to_string())), "Some(7)");
    assert_eq!(write_list(&vec![]), "[]");
    assert_eq!(write_list(&vec!["1".to_string()]), "[1]");
    assert_eq!(write_list(&vec!["1".to_string(), "2".to_string(), "3".to_string()]), "[1, 2, 3]");
}

#[test]
fn parts_are_joined_with_the_separator_between_them() {
    let parts = vec!["a".to_string(), "".to_string(), "c".to_string()];
    assert_eq!(join_texts(&parts, ", "), "a, , c");
    assert_eq!(join_texts(&parts, ""), "ac");
    assert_eq!(join_texts(&vec!["a".to_string()], "--"), "a");
    assert_eq!(join_texts(&vec![], "--"), "");
}

#[test]
fn scope_is_written_as_debug_formatting_writes_it() {
    for (crud, login, urls) in [(true, false, true), (false, true, false)] {
        let scope = ProjectScope {
            is_crud_required: crud,
            is_user_login_and_logout: login,
            is_external_urls_required: urls,
        };
        assert_eq!(scope.debug_text(), format!("{:?}", scope));
    }
    let scope = ProjectScope {
        is_crud_required: true,
        is_user_login_and_logout: false,
        is_external_urls_required: true,
    };
    assert_eq!(
        scope.debug_text(),
        "ProjectScope { is_crud_required: true, is_user_login_and_logout: false, is_external_urls_required: true }"
    );
}

#[test]
fn endpoint_is_written_as_debug_formatting_writes_it() {
    assert_eq!(item_route().debug_text(), format!("{:?}", item_route()));
    assert_eq!(odd_route().debug_text(), format!("{:?}", odd_route()));
    assert_eq!(
        odd_route().debug_text(),
        "RouteObject { route: \"/\\\"quoted\\\"\\n\", is_route_dynamic: \"false\", method: \"GET\", request_body: Array [Null, Bool(true), Number(7)], response: Null }"
    );
}

#[test]
fn list_of_endpoints_is_written_as_debug_formatting_writes_it() {
    for routes in [vec![], vec![item_route()], vec![item_route(), odd_route()]] {
        assert_eq!(debug_routes(&routes), format!("{:?}", routes));
    }
}

#[test]
fn fact_sheet_is_written_as_debug_formatting_writes_it() {
    let full = full_sheet();
    assert_eq!(full.debug_text(), format!("{:?}", full));

    let fresh = FactSheet::new("build a website".to_string());
    assert_eq!(fresh.debug_text(), format!("{:?}", fresh));
    assert_eq!(
        fresh.debug_text(),
        "FactSheet { project_description: \"build a website\", project_scope: None, external_urls: None, backend_code: None, api_endpoint_schema: None }"
    );

    let mut empty_lists = full_sheet();
    empty_lists.external_urls = Some(vec![]);
    empty_lists.api_endpoint_schema = Some(vec![]);
    empty_lists.backend_code = None;
    assert_eq!(empty_lists.debug_text(), format!("{:?}", empty_lists));
}
