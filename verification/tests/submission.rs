use stormchaser::app::App;

#[test]
fn test_strip_required() {
    let schema = r#"{
        "type": "object",
        "required": ["a"],
        "properties": {
            "a": { "type": "string" },
            "b": {
                "type": "object",
                "required": ["c"],
                "properties": { "c": { "type": "string" } }
            }
        },
        "items": [
            {
                "type": "object",
                "required": ["d"],
                "properties": { "d": { "type": "string" } }
            }
        ]
    }"#;
    let stripped = App::strip_required(schema);
    let value: serde_json::Value = serde_json::from_str(&stripped).unwrap();
    assert!(value.get("required").is_none());
    assert!(value["properties"]["b"].get("required").is_none());
    assert!(value["items"][0].get("required").is_none());
    assert_eq!(
        stripped,
        r#"{"type":"object","properties":{"a":{"type":"string"},"b":{"type":"object","properties":{"c":{"type":"string"}}}},"items":[{"type":"object","properties":{"d":{"type":"string"}}}]}"#
    );
}

#[test]
fn a_single_item_schema_and_other_texts() {
    assert_eq!(
        App::strip_required(r#"{"items":{"required":["x"],"type":"array"},"enum":[{"required":1}]}"#),
        r#"{"items":{"type":"array"},"enum":[{"required":1}]}"#
    );
    assert_eq!(App::strip_required("[1, 2]"), "[1, 2]");
    assert_eq!(App::strip_required("not json"), "not json");
}
