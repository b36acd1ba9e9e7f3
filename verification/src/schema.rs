//! JSON schemas as function calling needs them: no `$schema` and no
//! `format`, every object closed to properties it does not list, and every
//! listed property required.
use vstd::prelude::*;

verus! {

/// A schema: `true` or `false` (any value, no value), or a schema object.
#[derive(Debug)]
pub enum Schema {
    Bool(bool),
    Object(SchemaObject),
}

/// The parts of a schema object that function calling constrains: the format
/// of a string, what an object or an array must hold, and the schemas it
/// combines.
#[derive(Debug)]
pub struct SchemaObject {
    /// The `format` of a string value.
    pub format: Option<String>,
    /// What an object value must be.
    pub object: Option<ObjectValidation>,
    /// What an array value must be.
    pub array: Option<ArrayValidation>,
    /// The schemas a value must match all of, any of, or one of.
    pub subschemas: Option<SubschemaValidation>,
}

/// The properties of an object: their schemas by name, in increasing order of
/// name, the names of those that must be present, and the schema of any
/// other property.
#[derive(Debug)]
pub struct ObjectValidation {
    pub required: Vec<String>,
    pub properties: Vec<(String, Schema)>,
    pub additional_properties: Option<Box<Schema>>,
}

/// The items of an array: one schema for all, or one for each position.
#[derive(Debug)]
pub enum SingleOrVec {
    Single(Box<Schema>),
    Vec(Vec<Schema>),
}

/// What the items of an array must be.
#[derive(Debug)]
pub struct ArrayValidation {
    pub items: Option<SingleOrVec>,
}

/// The schemas a value must match: all of them (`allOf`), at least one
/// (`anyOf`), exactly one (`oneOf`).
#[derive(Debug)]
pub struct SubschemaValidation {
    pub all_of: Option<Vec<Schema>>,
    pub any_of: Option<Vec<Schema>>,
    pub one_of: Option<Vec<Schema>>,
}

/// A schema document: its `$schema` (the meta-schema it follows) and its
/// root schema object.
#[derive(Debug)]
pub struct RootSchema {
    pub meta_schema: Option<String>,
    pub schema: SchemaObject,
}

/// The names of properties, in order.
pub open spec fn property_names(p: Seq<(String, Schema)>) -> Seq<Seq<char>> {
    p.map_values(|e: (String, Schema)| e.0@)
}

/// The names, in order.
pub open spec fn name_texts(v: Seq<String>) -> Seq<Seq<char>> {
    v.map_values(|s: String| s@)
}

/// `r` is the schema `s` fixed: a schema object fixed, `true` or `false` kept.
pub open spec fn schema_fixed(s: Schema, r: Schema) -> bool
    decreases s,
{
    match s {
        Schema::Bool(_) => r == s,
        Schema::Object(o) => match r {
            Schema::Object(ro) => object_fixed(o, ro),
            _ => false,
        },
    }
}

/// `r` is the list of schemas `v`, each fixed.
pub open spec fn list_fixed(v: Vec<Schema>, r: Vec<Schema>) -> bool
    decreases v,
{
    &&& r@.len() == v@.len()
    &&& forall|i: int| #![trigger r@[i]] 0 <= i < v@.len() ==> schema_fixed(v@[i], r@[i])
}

/// `r` is the optional list `v` with each schema fixed.
pub open spec fn opt_list_fixed(v: Option<Vec<Schema>>, r: Option<Vec<Schema>>) -> bool
    decreases v,
{
    match v {
        None => r is None,
        Some(l) => match r {
            Some(rl) => list_fixed(l, rl),
            None => false,
        },
    }
}

/// `r` is the schema object `o` fixed for function calling: without
/// `format`; an object closed (`additionalProperties: false`), requiring all
/// its properties, and with each property's schema fixed; an array with the
/// schemas of its items fixed; the schemas it combines fixed.
pub open spec fn object_fixed(o: SchemaObject, r: SchemaObject) -> bool
    decreases o,
{
    &&& r.format is None
    &&& match o.object {
        None => r.object is None,
        Some(ov) => match r.object {
            None => false,
            Some(rv) => {
                &&& rv.additional_properties == Some(Box::new(Schema::Bool(false)))
                &&& name_texts(rv.required@) == property_names(ov.properties@)
                &&& rv.properties@.len() == ov.properties@.len()
                &&& forall|i: int|
                    #![trigger rv.properties@[i]]
                    0 <= i < ov.properties@.len() ==> rv.properties@[i].0 == ov.properties@[i].0
                        && schema_fixed(ov.properties@[i].1, rv.properties@[i].1)
            },
        },
    }
    &&& match o.array {
        None => r.array is None,
        Some(av) => match r.array {
            None => false,
            Some(rav) => match av.items {
                None => rav.items is None,
                Some(SingleOrVec::Single(b)) => match rav.items {
                    Some(SingleOrVec::Single(rb)) => schema_fixed(*b, *rb),
                    _ => false,
                },
                Some(SingleOrVec::Vec(v)) => match rav.items {
                    Some(SingleOrVec::Vec(rv)) => list_fixed(v, rv),
                    _ => false,
                },
            },
        },
    }
    &&& match o.subschemas {
        None => r.subschemas is None,
        Some(sv) => match r.subschemas {
            None => false,
            Some(rsv) => {
                &&& opt_list_fixed(sv.all_of, rsv.all_of)
                &&& opt_list_fixed(sv.any_of, rsv.any_of)
                &&& opt_list_fixed(sv.one_of, rsv.one_of)
            },
        },
    }
}

/// A schema that function calling accepts: no `format`; every object closed
/// to other properties and requiring exactly the properties it lists;
/// recursively, through properties, items and combined schemas.
pub open spec fn schema_strict(s: Schema) -> bool
    decreases s,
{
    match s {
        Schema::Bool(_) => true,
        Schema::Object(o) => object_strict(o),
    }
}

/// Every schema of the list is strict.
pub open spec fn list_strict(v: Vec<Schema>) -> bool
    decreases v,
{
    forall|i: int| #![trigger v@[i]] 0 <= i < v@.len() ==> schema_strict(v@[i])
}

/// Every schema of the optional list is strict.
pub open spec fn opt_list_strict(v: Option<Vec<Schema>>) -> bool
    decreases v,
{
    match v {
        None => true,
        Some(l) => list_strict(l),
    }
}

/// See `schema_strict`.
pub open spec fn object_strict(o: SchemaObject) -> bool
    decreases o,
{
    &&& o.format is None
    &&& match o.object {
        None => true,
        Some(ov) => {
            &&& ov.additional_properties == Some(Box::new(Schema::Bool(false)))
            &&& name_texts(ov.required@) == property_names(ov.properties@)
            &&& forall|i: int| #![trigger ov.properties@[i]] 0 <= i < ov.properties@.len() ==> schema_strict(ov.properties@[i].1)
        },
    }
    &&& match o.array {
        None => true,
        Some(av) => match av.items {
            None => true,
            Some(SingleOrVec::Single(b)) => schema_strict(*b),
            Some(SingleOrVec::Vec(v)) => list_strict(v),
        },
    }
    &&& match o.subschemas {
        None => true,
        Some(sv) => opt_list_strict(sv.all_of) && opt_list_strict(sv.any_of) && opt_list_strict(sv.one_of),
    }
}

/// Fixing a schema makes it one that function calling accepts: no `format`
/// is left, and every object, wherever it is nested, is closed and requires
/// all its properties.
pub proof fn fixed_schema_is_strict(s: Schema, r: Schema)
    requires
        schema_fixed(s, r),
    ensures
        schema_strict(r),
    decreases s,
{
    match s {
        Schema::Bool(_) => {},
        Schema::Object(o) => {
            fixed_object_is_strict(o, r->Object_0);
        },
    }
}

/// The same for a list of schemas.
pub proof fn fixed_list_is_strict(v: Vec<Schema>, r: Vec<Schema>)
    requires
        list_fixed(v, r),
    ensures
        list_strict(r),
    decreases v,
{
    assert forall|i: int| #![trigger r@[i]] 0 <= i < r@.len() implies schema_strict(r@[i]) by {
        assert(decreases_to!(v => v@));
        assert(decreases_to!(v@ => v@[i]));
        fixed_schema_is_strict(v@[i], r@[i]);
    }
}

/// The same for an optional list of schemas.
pub proof fn fixed_opt_list_is_strict(v: Option<Vec<Schema>>, r: Option<Vec<Schema>>)
    requires
        opt_list_fixed(v, r),
    ensures
        opt_list_strict(r),
    decreases v,
{
    match v {
        None => {},
        Some(l) => {
            assert(decreases_to!(v => v->0));
            fixed_list_is_strict(l, r->0);
        },
    }
}

/// The same for a schema object (and so for a whole schema document).
pub proof fn fixed_object_is_strict(o: SchemaObject, r: SchemaObject)
    requires
        object_fixed(o, r),
    ensures
        object_strict(r),
    decreases o,
{
    match o.object {
        None => {},
        Some(ov) => {
            let rv = r.object->0;
            assert(property_names(rv.properties@) =~= property_names(ov.properties@));
            assert forall|i: int| #![trigger rv.properties@[i]] 0 <= i < rv.properties@.len() implies schema_strict(
                rv.properties@[i].1,
            ) by {
                assert(decreases_to!(o => o.object));
                assert(decreases_to!(o.object => o.object->0));
                assert(decreases_to!(ov => ov.properties));
                assert(decreases_to!(ov.properties => ov.properties@));
                assert(decreases_to!(ov.properties@ => ov.properties@[i]));
                assert(decreases_to!(ov.properties@[i] => ov.properties@[i].1));
                fixed_schema_is_strict(ov.properties@[i].1, rv.properties@[i].1);
            }
        },
    }
    match o.array {
        None => {},
        Some(av) => {
            let rav = r.array->0;
            match av.items {
                None => {},
                Some(SingleOrVec::Single(b)) => {
                    assert(decreases_to!(o => o.array));
                    assert(decreases_to!(o.array => o.array->0));
                    assert(decreases_to!(av => av.items));
                    assert(decreases_to!(av.items => av.items->0));
                    assert(decreases_to!(av.items->0 => av.items->0->Single_0));
                    fixed_schema_is_strict(*b, *(rav.items->0->Single_0));
                },
                Some(SingleOrVec::Vec(v)) => {
                    assert(decreases_to!(o => o.array));
                    assert(decreases_to!(o.array => o.array->0));
                    assert(decreases_to!(av => av.items));
                    assert(decreases_to!(av.items => av.items->0));
                    assert(decreases_to!(av.items->0 => av.items->0->Vec_0));
                    fixed_list_is_strict(v, rav.items->0->Vec_0);
                },
            }
        },
    }
    match o.subschemas {
        None => {},
        Some(sv) => {
            let rsv = r.subschemas->0;
            assert(decreases_to!(o => o.subschemas));
            assert(decreases_to!(o.subschemas => o.subschemas->0));
            assert(decreases_to!(sv => sv.all_of));
            assert(decreases_to!(sv => sv.any_of));
            assert(decreases_to!(sv => sv.one_of));
            fixed_opt_list_is_strict(sv.all_of, rsv.all_of);
            fixed_opt_list_is_strict(sv.any_of, rsv.any_of);
            fixed_opt_list_is_strict(sv.one_of, rsv.one_of);
        },
    }
}

/// The names of the properties, in order.
fn names_of(p: &Vec<(String, Schema)>) -> (r: Vec<String>)
    ensures
        name_texts(r@) == property_names(p@),
{
    let mut r: Vec<String> = Vec::new();
    for i in 0..p.len()
        invariant
            r@.len() == i,
            i <= p@.len(),
            forall|k: int| 0 <= k < i ==> #[trigger] r@[k]@ == p@[k].0@,
    {
        r.push(p[i].0.clone());
    }
    assert(name_texts(r@) =~= property_names(p@));
    r
}

/// The schema fixed for function calling.
fn fixed_schema(s: &Schema) -> (r: Schema)
    ensures
        schema_fixed(*s, r),
    decreases s,
{
    match s {
        Schema::Bool(b) => Schema::Bool(*b),
        Schema::Object(o) => Schema::Object(fixed_object(o)),
    }
}

/// The schemas, each fixed.
fn fixed_list(v: &Vec<Schema>) -> (r: Vec<Schema>)
    ensures
        list_fixed(*v, r),
    decreases v,
{
    let mut items: Vec<Schema> = Vec::new();
    let n = v.len();
    for i in 0..n
        invariant
            n == v@.len(),
            items@.len() == i,
            forall|k: int| #![trigger items@[k]] 0 <= k < i ==> schema_fixed(v@[k], items@[k]),
    {
        proof {
            assert(decreases_to!(*v => v@));
            assert(decreases_to!(v@ => v@[i as int]));
        }
        items.push(fixed_schema(&v[i]));
    }
    items
}

/// The optional schemas, each fixed.
fn fixed_opt_list(v: &Option<Vec<Schema>>) -> (r: Option<Vec<Schema>>)
    ensures
        opt_list_fixed(*v, r),
    decreases v,
{
    match v {
        None => None,
        Some(l) => {
            proof {
                assert(decreases_to!(*v => v->0));
            }
            Some(fixed_list(l))
        },
    }
}

/// The schema object fixed for function calling.
fn fixed_object(o: &SchemaObject) -> (r: SchemaObject)
    ensures
        object_fixed(*o, r),
    decreases o,
{
    let object = match &o.object {
        None => None,
        Some(ov) => {
            let mut properties: Vec<(String, Schema)> = Vec::new();
            let n = ov.properties.len();
            for i in 0..n
                invariant
                    n == ov.properties@.len(),
                    o.object == Some(*ov),
                    properties@.len() == i,
                    forall|k: int|
                        #![trigger properties@[k]]
                        0 <= k < i ==> properties@[k].0 == ov.properties@[k].0
                            && schema_fixed(ov.properties@[k].1, properties@[k].1),
            {
                proof {
                    assert(decreases_to!(*o => o.object));
                    assert(decreases_to!(o.object => o.object->0));
                    assert(decreases_to!(*ov => ov.properties));
                    assert(decreases_to!(ov.properties => ov.properties@));
                    assert(decreases_to!(ov.properties@ => ov.properties@[i as int]));
                    assert(decreases_to!(ov.properties@[i as int] => ov.properties@[i as int].1));
                }
                let name = ov.properties[i].0.clone();
                let fixed = fixed_schema(&ov.properties[i].1);
                properties.push((name, fixed));
            }
            let required = names_of(&ov.properties);
            Some(ObjectValidation {
                required,
                properties,
                additional_properties: Some(Box::new(Schema::Bool(false))),
            })
        },
    };
    let array = match &o.array {
        None => None,
        Some(av) => {
            let items = match &av.items {
                None => None,
                Some(SingleOrVec::Single(b)) => Some(SingleOrVec::Single(Box::new(fixed_schema(&**b)))),
                Some(SingleOrVec::Vec(v)) => {
                    proof {
                        assert(decreases_to!(*o => o.array));
                        assert(decreases_to!(o.array => o.array->0));
                        assert(decreases_to!(*av => av.items));
                        assert(decreases_to!(av.items => av.items->0));
                        assert(av.items->0 == SingleOrVec::Vec(*v));
                        assert(decreases_to!(av.items->0 => av.items->0->Vec_0));
                    }
                    Some(SingleOrVec::Vec(fixed_list(v)))
                },
            };
            Some(ArrayValidation { items })
        },
    };
    let subschemas = match &o.subschemas {
        None => None,
        Some(sv) => {
            proof {
                assert(decreases_to!(*o => o.subschemas));
                assert(decreases_to!(o.subschemas => o.subschemas->0));
                assert(decreases_to!(*sv => sv.all_of));
                assert(decreases_to!(*sv => sv.any_of));
                assert(decreases_to!(*sv => sv.one_of));
            }
            let all_of = fixed_opt_list(&sv.all_of);
            let any_of = fixed_opt_list(&sv.any_of);
            let one_of = fixed_opt_list(&sv.one_of);
            Some(SubschemaValidation { all_of, any_of, one_of })
        },
    };
    SchemaObject { format: None, object, array, subschemas }
}

/// Fixes a schema document for function calling: its `$schema` goes, and its
/// root schema object is fixed (see `object_fixed`).
pub fn fix_json_schema(schema: &mut RootSchema)
    ensures
        final(schema).meta_schema is None,
        object_fixed(old(schema).schema, final(schema).schema),
{
    let fixed = fixed_object(&schema.schema);
    schema.meta_schema = None;
    schema.schema = fixed;
}

} // verus!
