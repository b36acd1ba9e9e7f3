use anda::schema::{
    ArrayValidation, ObjectValidation, RootSchema, Schema, SchemaObject, SingleOrVec, SubschemaValidation,
    fix_json_schema,
};

fn string_schema(format: Option<&str>) -> Schema {
    Schema::Object(SchemaObject { format: format.map(|f| f.to_string()), object: None, array: None, subschemas: None })
}

fn object_schema(props: Vec<(&str, Schema)>, required: Vec<&str>) -> SchemaObject {
    SchemaObject {
        format: None,
        object: Some(ObjectValidation {
            required: required.into_iter().map(|s| s.to_string()).collect(),
            properties: props.into_iter().map(|(k, v)| (k.to_string(), v)).collect(),
            additional_properties: None,
        }),
        array: None,
        subschemas: None,
    }
}

fn object_of(s: &Schema) -> &ObjectValidation {
    match s {
        Schema::Object(o) => o.object.as_ref().unwrap(),
        Schema::Bool(_) => panic!("not an object"),
    }
}

#[test]
fn fix_json_schema_closes_objects_and_requires_all() {
    let inner = object_schema(vec![("x", string_schema(Some("int32")))], vec![]);
    let root = object_schema(
        vec![("a", string_schema(Some("date-time"))), ("b", Schema::Object(inner)), ("c", Schema::Bool(true))],
        vec!["a"],
    );
    let mut schema = RootSchema { meta_schema: Some("http://json-schema.org/draft-07/schema#".to_string()), schema: root };
    fix_json_schema(&mut schema);
    assert!(schema.meta_schema.is_none());
    assert!(schema.schema.format.is_none());
    let obj = schema.schema.object.as_ref().unwrap();
    assert_eq!(obj.required, vec!["a".to_string(), "b".to_string(), "c".to_string()]);
    assert!(matches!(obj.additional_properties.as_deref(), Some(Schema::Bool(false))));
    match &obj.properties[0].1 {
        Schema::Object(o) => assert!(o.format.is_none()),
        Schema::Bool(_) => panic!("a is an object schema"),
    }
    let b = object_of(&obj.properties[1].1);
    assert_eq!(b.required, vec!["x".to_string()]);
    assert!(matches!(b.additional_properties.as_deref(), Some(Schema::Bool(false))));
    assert!(matches!(obj.properties[2].1, Schema::Bool(true)));
}

#[test]
fn fix_json_schema_keeps_complete_required_and_fixes_items() {
    let item = object_schema(vec![("n", string_schema(Some("uint")))], vec!["n"]);
    let root = SchemaObject {
        format: Some("x".to_string()),
        object: None,
        array: Some(ArrayValidation { items: Some(SingleOrVec::Single(Box::new(Schema::Object(item)))) }),
        subschemas: None,
    };
    let mut schema = RootSchema { meta_schema: None, schema: root };
    fix_json_schema(&mut schema);
    assert!(schema.schema.format.is_none());
    assert!(schema.schema.object.is_none());
    match &schema.schema.array.as_ref().unwrap().items {
        Some(SingleOrVec::Single(b)) => {
            let o = object_of(b);
            assert_eq!(o.required, vec!["n".to_string()]);
            assert!(matches!(o.additional_properties.as_deref(), Some(Schema::Bool(false))));
            match &o.properties[0].1 {
                Schema::Object(p) => assert!(p.format.is_none()),
                Schema::Bool(_) => panic!("n is an object schema"),
            }
        }
        _ => panic!("single items expected"),
    }
    let tuple = SchemaObject {
        format: None,
        object: None,
        array: Some(ArrayValidation { items: Some(SingleOrVec::Vec(vec![string_schema(Some("f")), Schema::Bool(false)])) }),
        subschemas: None,
    };
    let mut schema = RootSchema { meta_schema: None, schema: tuple };
    fix_json_schema(&mut schema);
    match &schema.schema.array.as_ref().unwrap().items {
        Some(SingleOrVec::Vec(v)) => {
            assert_eq!(v.len(), 2);
            assert!(matches!(&v[0], Schema::Object(o) if o.format.is_none()));
            assert!(matches!(v[1], Schema::Bool(false)));
        }
        _ => panic!("tuple items expected"),
    }
}

#[test]
fn fix_json_schema_requires_all_and_reaches_subschemas() {
    // required names as many as the properties, but not the same ones
    let root = object_schema(vec![("a", Schema::Bool(true)), ("b", Schema::Bool(true))], vec!["a", "z"]);
    let mut schema = RootSchema { meta_schema: None, schema: root };
    fix_json_schema(&mut schema);
    assert_eq!(schema.schema.object.as_ref().unwrap().required, vec!["a".to_string(), "b".to_string()]);

    let variant = object_schema(vec![("kind", string_schema(Some("x")))], vec![]);
    let root = SchemaObject {
        format: None,
        object: None,
        array: None,
        subschemas: Some(SubschemaValidation {
            all_of: None,
            any_of: None,
            one_of: Some(vec![Schema::Object(variant), Schema::Bool(true)]),
        }),
    };
    let mut schema = RootSchema { meta_schema: None, schema: root };
    fix_json_schema(&mut schema);
    let sub = schema.schema.subschemas.as_ref().unwrap();
    assert!(sub.all_of.is_none() && sub.any_of.is_none());
    let one_of = sub.one_of.as_ref().unwrap();
    let v = object_of(&one_of[0]);
    assert_eq!(v.required, vec!["kind".to_string()]);
    assert!(matches!(v.additional_properties.as_deref(), Some(Schema::Bool(false))));
    assert!(matches!(&v.properties[0].1, Schema::Object(o) if o.format.is_none()));
    assert!(matches!(one_of[1], Schema::Bool(true)));
}
