use gh_client_backend::engine::permission_resolver::{flags_from_json, RepoPermissionFlags};
use gh_client_backend::features::repositories::service::branch_sha_from_json;
use gh_client_backend::json::JsonValue;

fn object(entries: Vec<(&str, JsonValue)>) -> JsonValue {
    JsonValue::Object(entries.into_iter().map(|(k, v)| (k.to_string(), v)).collect())
}

fn no_flags(f: &RepoPermissionFlags) -> bool {
    f.admin.is_none() && f.maintain.is_none() && f.push.is_none() && f.triage.is_none() && f.pull.is_none()
}

#[test]
fn flags_are_read_from_an_object() {
    let f = flags_from_json(&object(vec![
        ("admin", JsonValue::Bool(false)),
        ("maintain", JsonValue::Null),
        ("push", JsonValue::Bool(true)),
        ("other", JsonValue::Number(Some(3))),
    ]));
    assert_eq!(f.admin, Some(false));
    assert_eq!(f.maintain, None);
    assert_eq!(f.push, Some(true));
    assert_eq!(f.triage, None);
    assert_eq!(f.pull, None);
}

#[test]
fn flags_are_read_from_a_five_element_array() {
    let f = flags_from_json(&JsonValue::Array(vec![
        JsonValue::Bool(true),
        JsonValue::Null,
        JsonValue::Bool(false),
        JsonValue::Bool(true),
        JsonValue::Bool(false),
    ]));
    assert_eq!(f.admin, Some(true));
    assert_eq!(f.maintain, None);
    assert_eq!(f.push, Some(false));
    assert_eq!(f.triage, Some(true));
    assert_eq!(f.pull, Some(false));
}

#[test]
fn flags_of_other_shapes_are_all_absent() {
    let shapes = vec![
        JsonValue::Array(vec![JsonValue::Bool(true), JsonValue::Bool(true)]),
        object(vec![("admin", JsonValue::Number(Some(1)))]),
        JsonValue::Str("admin".to_string()),
        JsonValue::Null,
        JsonValue::Number(Some(7)),
    ];
    for shape in &shapes {
        assert!(no_flags(&flags_from_json(shape)));
    }
}

#[test]
fn branch_sha_is_the_object_sha() {
    let v = object(vec![
        ("ref", JsonValue::Str("refs/heads/main".to_string())),
        (
            "object",
            object(vec![
                ("sha", JsonValue::Str("abc123".to_string())),
                ("type", JsonValue::Str("commit".to_string())),
            ]),
        ),
    ]);
    assert_eq!(branch_sha_from_json(&v).as_deref(), Some("abc123"));
}

#[test]
fn branch_sha_is_absent_without_a_text_sha() {
    let shapes = vec![
        object(vec![("object", object(vec![("sha", JsonValue::Number(Some(5)))]))]),
        object(vec![("object", JsonValue::Null)]),
        object(vec![("sha", JsonValue::Str("abc".to_string()))]),
        JsonValue::Array(vec![]),
    ];
    for shape in &shapes {
        assert_eq!(branch_sha_from_json(shape), None);
    }
}
