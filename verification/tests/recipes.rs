use goose_core::json::{from_value, parse, same_json, Json};
use goose_core::openapi::{convert_schemars_to_utoipa, SchemaKind, SchemaNode};
use goose_core::recipe::{
    clean_content, create_recipe, keep_activities, parse_recipe, sections_from_json,
    sections_from_text, RecipeError, DEFAULT_DESCRIPTION, DEFAULT_TITLE,
};

fn s(t: &str) -> String {
    t.to_string()
}

#[test]
fn a_fenced_answer_is_read_as_json() {
    let content = "Here it is:\n```json\n{\"title\": \"T\", \"instructions\": \"do\", \"activities\": [\"a\", \"b\"]}\n```\nbye";
    let p = parse_recipe(content).unwrap();
    assert_eq!(p.title, "T");
    assert_eq!(p.description, "a custom recipe instance from this chat session");
    assert_eq!(p.instructions, "do");
    assert_eq!(p.activities, vec![s("a"), s("b")]);
}

#[test]
fn a_plain_answer_is_read_as_json() {
    let p = parse_recipe(" {\"instructions\": \"do\", \"activities\": []} ").unwrap();
    assert_eq!(p.title, "Custom recipe from chat");
    assert_eq!(p.title, DEFAULT_TITLE);
    assert_eq!(p.description, DEFAULT_DESCRIPTION);
    assert!(p.activities.is_empty());
}

#[test]
fn faults_of_a_json_answer_are_told() {
    let cases = [
        ("{}", RecipeError::MissingInstructions, "Missing 'instructions' in json response"),
        ("{\"instructions\": 1}", RecipeError::InstructionsNotText, "instructions' is not a string"),
        (
            "{\"instructions\": \"a\"}",
            RecipeError::MissingActivities,
            "Missing 'activities' in json response",
        ),
        (
            "{\"instructions\": \"a\", \"activities\": 1}",
            RecipeError::ActivitiesNotArray,
            "'activities' is not an array'",
        ),
        (
            "{\"instructions\": \"a\", \"activities\": [1]}",
            RecipeError::ActivityNotText,
            "'activities' array element is not a string",
        ),
    ];
    for (content, error, message) in cases {
        let e = parse_recipe(content).unwrap_err();
        assert_eq!(e, error);
        assert_eq!(e.message(), message);
    }
    assert!(sections_from_json(&parse("{\"instructions\": \"a\", \"activities\": [\"x\"]}").unwrap())
        .is_ok());
}

#[test]
fn a_text_answer_is_split() {
    let content = "# instructions:\nWork hard \n\n## activities:\n- first thing\n* second thing\n1. third thing\n\n• fourth\n";
    let p = parse_recipe(content).unwrap();
    assert_eq!(p.instructions, "Work hard");
    assert_eq!(
        p.activities,
        vec![s("first thing"), s("second thing"), s("third thing"), s("fourth")]
    );
    let p = parse_recipe("just do it").unwrap();
    assert_eq!(p.instructions, "just do it");
    assert!(p.activities.is_empty());
    assert_eq!(sections_from_text("a activities: x\r\ny").1, vec![s("x"), s("y")]);
    assert_eq!(keep_activities(&vec![s("  a "), s("  "), s("b")]), vec![s("a"), s("b")]);
    assert_eq!(clean_content(" a ", None), "a");
    assert_eq!(clean_content(" a ", Some(" b\n")), "b");
}

#[test]
fn a_recipe_carries_its_settings() {
    let content = "{\"instructions\": \"do\", \"activities\": [\"a\"]}";
    let r = create_recipe(content, vec![], Some(s("me")), s("p"), s("m"), None).unwrap();
    assert_eq!(r.settings.goose_provider, Some(s("p")));
    assert_eq!(r.settings.goose_model, Some(s("m")));
    assert_eq!(r.settings.temperature_bits, Some(0.0f32.to_bits()));
    assert_eq!(r.author_contact, Some(s("me")));
    let bits = 0.7f32.to_bits();
    let r = create_recipe(content, vec![], None, s("p"), s("m"), Some(bits)).unwrap();
    assert_eq!(r.settings.temperature_bits, Some(bits));
    assert_eq!(
        create_recipe("{}", vec![], None, s("p"), s("m"), None),
        Err(RecipeError::MissingInstructions)
    );
}

#[test]
fn json_is_read_as_it_is() {
    assert_eq!(parse("nonsense"), None);
    let j = parse("{\"b\": [1, -2.5, null, true, \"x\"], \"a\": {}}").unwrap();
    let Json::Object(fields) = &j else { panic!("object expected") };
    assert_eq!(fields.len(), 2);
    let items = j.get("b").unwrap().as_array().unwrap();
    let Json::Number(one) = &items[0] else { panic!("number expected") };
    assert_eq!(one.text, "1");
    assert_eq!(one.as_u64, Some(1));
    let Json::Number(two) = &items[1] else { panic!("number expected") };
    assert_eq!(two.as_u64, None);
    assert_eq!(two.text, "-2.5");
    assert_eq!(items[2], Json::Null);
    assert_eq!(items[3], Json::Bool(true));
    assert_eq!(items[4].as_str(), Some(&s("x")));
    let v: serde_json::Value = serde_json::from_str("{\"k\": \"v\"}").unwrap();
    assert!(same_json(&from_value(&v), &parse("{\"k\": \"v\"}").unwrap()));
    assert!(!same_json(&from_value(&v), &j));
}

fn schema(t: &str) -> SchemaNode {
    convert_schemars_to_utoipa(&parse(t).unwrap())
}

#[test]
fn references_and_unions_are_converted() {
    assert_eq!(
        schema("{\"$ref\": \"#/x\", \"type\": \"string\"}"),
        SchemaNode::Reference(s("#/x"))
    );
    let SchemaNode::OneOf(list) = schema("{\"oneOf\": [{\"type\": \"string\"}, 3, true]}") else {
        panic!("a choice expected")
    };
    assert_eq!(list.len(), 2);
    assert!(matches!(schema("{\"allOf\": []}"), SchemaNode::AllOf(l) if l.is_empty()));
    assert!(matches!(schema("{\"anyOf\": [{}]}"), SchemaNode::AnyOf(l) if l.len() == 1));
    assert!(
        matches!(schema("{\"type\": [\"string\", \"null\"]}"), SchemaNode::AnyOf(l) if l.len() == 2)
    );
}

#[test]
fn typed_schemas_are_converted() {
    let SchemaNode::Object { kind, properties, required, free_form, additional, .. } = schema(
        "{\"type\": \"object\", \"properties\": {\"a\": {\"type\": \"integer\", \"minimum\": 1}, \"b\": 2}, \"required\": [\"a\", 3], \"additionalProperties\": false}",
    ) else {
        panic!("an object expected")
    };
    assert_eq!(kind, SchemaKind::Object);
    assert_eq!(required, vec![s("a")]);
    assert_eq!(free_form, Some(false));
    assert_eq!(additional, None);
    assert_eq!(properties.len(), 1);
    let SchemaNode::Object { kind, number, .. } = &properties[0].1 else {
        panic!("an object expected")
    };
    assert_eq!(*kind, SchemaKind::Integer);
    assert_eq!(number.minimum, Some(s("1")));
    let SchemaNode::Object { kind, text, .. } =
        schema("{\"type\": \"string\", \"minLength\": 2, \"maxLength\": 5, \"pattern\": \"a\", \"format\": \"uri\"}")
    else {
        panic!("an object expected")
    };
    assert_eq!(kind, SchemaKind::Text);
    assert_eq!((text.min_length, text.max_length), (Some(2), Some(5)));
    assert_eq!((text.pattern, text.format), (Some(s("a")), Some(s("uri"))));
    let SchemaNode::Array { items, min_items, max_items } =
        schema("{\"type\": \"array\", \"items\": {\"type\": \"boolean\"}, \"minItems\": 1}")
    else {
        panic!("an array expected")
    };
    assert!(matches!(
        items.map(|b| *b),
        Some(SchemaNode::Object { kind: SchemaKind::Boolean, .. })
    ));
    assert_eq!((min_items, max_items), (Some(1), None));
    assert!(matches!(
        schema("{\"type\": \"number\"}"),
        SchemaNode::Object { kind: SchemaKind::Number, .. }
    ));
    assert!(matches!(schema("true"), SchemaNode::Object { kind: SchemaKind::Object, .. }));
}
