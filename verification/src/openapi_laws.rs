//! What each part of a schema becomes in the description of an API.
use crate::assoc::{self, lookup, unique_keys};
use crate::json::JsonView;
use crate::openapi::{
    children_of, is_schema, lemma_object_schema, present, present_properties, schema_of, schemas_in,
    schemas_under, typed_schema, NumberLimitsView, SchemaKind, SchemaView, TextLimitsView,
};
use crate::permission_judge::only_texts;
use vstd::prelude::*;

verus! {

/// A list under a name.
pub open spec fn list_under(fields: Seq<(Seq<char>, JsonView)>, k: Seq<char>) -> bool {
    lookup(fields, k) is Some && lookup(fields, k)->0 is Array
}

/// An object that is neither a reference nor a choice.
pub open spec fn of_a_type(fields: Seq<(Seq<char>, JsonView)>) -> bool {
    &&& !(lookup(fields, "$ref"@) is Some && lookup(fields, "$ref"@)->0 is Text)
    &&& !list_under(fields, "oneOf"@)
    &&& !list_under(fields, "allOf"@)
    &&& !list_under(fields, "anyOf"@)
}

/// A limit is the one that stands under a name: the number as it is written, or none.
pub open spec fn number_under(
    fields: Seq<(Seq<char>, JsonView)>,
    k: Seq<char>,
    limit: Option<Seq<char>>,
) -> bool {
    let v = lookup(fields, k);
    &&& v is Some && v->0 is Number ==> limit == Some(v->0->Number_text)
    &&& v is None || !(v->0 is Number) ==> limit is None
}

/// A limit is the count that stands under a name, or none.
pub open spec fn count_under(
    fields: Seq<(Seq<char>, JsonView)>,
    k: Seq<char>,
    limit: Option<u64>,
) -> bool {
    let v = lookup(fields, k);
    &&& v is Some && v->0 is Number ==> limit == v->0->Number_as_u64
    &&& v is None || !(v->0 is Number) ==> limit is None
}

/// A text is the one that stands under a name, or none.
pub open spec fn text_under(
    fields: Seq<(Seq<char>, JsonView)>,
    k: Seq<char>,
    t: Option<Seq<char>>,
) -> bool {
    let v = lookup(fields, k);
    &&& v is Some && v->0 is Text ==> t == Some(v->0->Text_0)
    &&& v is None || !(v->0 is Text) ==> t is None
}

/// No limit is set on texts.
pub open spec fn any_text(t: TextLimitsView) -> bool {
    t.min_length is None && t.max_length is None && t.pattern is None && t.format is None
}

/// No limit is set on numbers.
pub open spec fn any_number(n: NumberLimitsView) -> bool {
    &&& n.minimum is None && n.maximum is None && n.exclusive_minimum is None
    &&& n.exclusive_maximum is None && n.multiple_of is None
}

/// A text keeps its limits: each is the one that stands under its name.
pub proof fn law_text_keeps_its_limits(fields: Seq<(Seq<char>, JsonView)>)
    requires
        of_a_type(fields),
        lookup(fields, "type"@) == Some(JsonView::Text("string"@)),
    ensures
        schema_of(JsonView::Object(fields)) matches SchemaView::Object {
            kind,
            properties,
            required,
            free_form,
            additional,
            text,
            number,
        } && {
            &&& kind == SchemaKind::Text
            &&& count_under(fields, "minLength"@, text.min_length)
            &&& count_under(fields, "maxLength"@, text.max_length)
            &&& text_under(fields, "pattern"@, text.pattern)
            &&& text_under(fields, "format"@, text.format)
            &&& any_number(number)
            &&& properties.len() == 0 && required.len() == 0 && free_form is None
            &&& additional is None
        },
{
    lemma_object_schema(fields);
    lemma_types();
}

/// A number keeps its limits: each is the one that stands under its name, as it is
/// written. An integer is told apart.
pub proof fn law_number_keeps_its_limits(fields: Seq<(Seq<char>, JsonView)>, t: Seq<char>)
    requires
        of_a_type(fields),
        lookup(fields, "type"@) == Some(JsonView::Text(t)),
        t == "number"@ || t == "integer"@,
    ensures
        schema_of(JsonView::Object(fields)) matches SchemaView::Object {
            kind,
            properties,
            required,
            free_form,
            additional,
            text,
            number,
        } && {
            &&& t == "number"@ ==> kind == SchemaKind::Number
            &&& t == "integer"@ ==> kind == SchemaKind::Integer
            &&& number_under(fields, "minimum"@, number.minimum)
            &&& number_under(fields, "maximum"@, number.maximum)
            &&& number_under(fields, "exclusiveMinimum"@, number.exclusive_minimum)
            &&& number_under(fields, "exclusiveMaximum"@, number.exclusive_maximum)
            &&& number_under(fields, "multipleOf"@, number.multiple_of)
            &&& any_text(text)
            &&& properties.len() == 0 && required.len() == 0 && free_form is None
            &&& additional is None
        },
{
    lemma_object_schema(fields);
    lemma_types();
}

proof fn lemma_types()
    ensures
        "object"@ != "array"@,
        "object"@ != "string"@,
        "object"@ != "number"@,
        "object"@ != "integer"@,
        "object"@ != "boolean"@,
        "object"@ != "null"@,
        "array"@ != "string"@,
        "array"@ != "number"@,
        "array"@ != "integer"@,
        "array"@ != "boolean"@,
        "array"@ != "null"@,
        "string"@ != "number"@,
        "string"@ != "integer"@,
        "string"@ != "boolean"@,
        "string"@ != "null"@,
        "number"@ != "integer"@,
        "number"@ != "boolean"@,
        "number"@ != "null"@,
        "integer"@ != "boolean"@,
        "integer"@ != "null"@,
        "boolean"@ != "null"@,
{
    reveal_strlit("object");
    reveal_strlit("array");
    reveal_strlit("string");
    reveal_strlit("number");
    reveal_strlit("integer");
    reveal_strlit("boolean");
    reveal_strlit("null");
    assert("object"@[0] == 'o' && "array"@[0] == 'a' && "string"@[0] == 's');
    assert("number"@[0] == 'n' && "integer"@[0] == 'i' && "boolean"@[0] == 'b');
    assert("null"@[0] == 'n' && "null"@.len() == 4 && "number"@.len() == 6);
}

proof fn lemma_properties(list: Seq<(Seq<char>, Option<SchemaView>)>, i: int)
    requires
        unique_keys(list),
        0 <= i < list.len(),
    ensures
        lookup(present_properties(list), list[i].0) == list[i].1,
    decreases list.len(),
{
    let before = list.drop_last();
    let last = list.last();
    assert(last == list[list.len() - 1]);
    assert(unique_keys(before)) by {
        assert forall|a: int, b: int| 0 <= a < b < before.len() implies (
        #[trigger] before[a]).0 != (#[trigger] before[b]).0 by {
            assert(list[a].0 != list[b].0);
        }
    }
    if last.1 is Some {
        assoc::lemma_lookup_put(present_properties(before), last.0, last.1->0, list[i].0);
    }
    if i < before.len() {
        assert(before[i] == list[i]);
        assert(list[i].0 != list[list.len() - 1].0);
        lemma_properties(before, i);
    } else {
        lemma_no_property(before, last.0);
    }
}

proof fn lemma_no_property(list: Seq<(Seq<char>, Option<SchemaView>)>, k: Seq<char>)
    requires
        forall|j: int| 0 <= j < list.len() ==> (#[trigger] list[j]).0 != k,
    ensures
        lookup(present_properties(list), k) is None,
    decreases list.len(),
{
    if list.len() > 0 {
        let before = list.drop_last();
        assert forall|j: int| 0 <= j < before.len() implies (#[trigger] before[j]).0 != k by {
            assert(before[j] == list[j]);
        }
        lemma_no_property(before, k);
        assert(list.last() == list[list.len() - 1]);
        if list.last().1 is Some {
            assoc::lemma_lookup_put(
                present_properties(before),
                list.last().0,
                list.last().1->0,
                k,
            );
        }
    }
}

/// An object keeps each of its properties under its name, converted by itself; the
/// required names are the texts of its list; and what is said of other properties is kept.
pub proof fn law_object_keeps_its_properties(
    fields: Seq<(Seq<char>, JsonView)>,
    props: Seq<(Seq<char>, JsonView)>,
    i: int,
)
    requires
        of_a_type(fields),
        lookup(fields, "type"@) == Some(JsonView::Text("object"@)),
        lookup(fields, "properties"@) == Some(JsonView::Object(props)),
        unique_keys(props),
        0 <= i < props.len(),
    ensures
        schema_of(JsonView::Object(fields)) matches SchemaView::Object {
            kind,
            properties,
            required,
            free_form,
            additional,
            text,
            number,
        } && {
            let other = lookup(fields, "additionalProperties"@);
            let names = lookup(fields, "required"@);
            &&& kind == SchemaKind::Object
            &&& is_schema(props[i].1) ==> lookup(properties, props[i].0) == Some(
                schema_of(props[i].1),
            )
            &&& !is_schema(props[i].1) ==> lookup(properties, props[i].0) is None
            &&& names is Some && names->0 is Array ==> required == only_texts(names->0->Array_0)
            &&& names is None || !(names->0 is Array) ==> required.len() == 0
            &&& other is Some && other->0 is Bool ==> free_form == Some(other->0->Bool_0)
                && additional is None
            &&& other is Some && other->0 is Object ==> free_form is None && additional == Some(
                Box::new(schema_of(other->0)),
            )
            &&& other is None ==> free_form is None && additional is None
            &&& any_text(text) && any_number(number)
        },
{
    lemma_object_schema(fields);
    lemma_types();
    let list = schemas_under(props);
    assert(list[i].0 == props[i].0);
    assert(unique_keys(list)) by {
        assert forall|a: int, b: int| 0 <= a < b < list.len() implies (#[trigger] list[a]).0 != (
        #[trigger] list[b]).0 by {
            assert(props[a].0 != props[b].0);
        }
    }
    lemma_properties(list, i);
}

/// A list keeps its limits, and the schema of its items: that of all, or any of several.
pub proof fn law_list_keeps_its_items(fields: Seq<(Seq<char>, JsonView)>)
    requires
        of_a_type(fields),
        lookup(fields, "type"@) == Some(JsonView::Text("array"@)),
    ensures
        schema_of(JsonView::Object(fields)) matches SchemaView::Array {
            items,
            min_items,
            max_items,
        } && {
            let of = lookup(fields, "items"@);
            &&& count_under(fields, "minItems"@, min_items)
            &&& count_under(fields, "maxItems"@, max_items)
            &&& of is None ==> items is None
            &&& of is Some && is_schema(of->0) ==> items == Some(Box::new(schema_of(of->0)))
            &&& of is Some && of->0 is Array ==> items == Some(
                Box::new(SchemaView::AnyOf(present(schemas_in(of->0->Array_0)))),
            )
        },
{
    lemma_object_schema(fields);
    lemma_types();
}

/// The schemas of a list are those of its parts, in order: each value that can stand for a
/// schema by itself, and no other.
pub proof fn law_schemas_of_a_list(x: Seq<JsonView>, y: Seq<JsonView>, v: JsonView)
    ensures
        present(schemas_in(x + y)) == present(schemas_in(x)) + present(schemas_in(y)),
        v is Object || v is Bool ==> present(schemas_in(seq![v])) == seq![schema_of(v)],
        !(v is Object) && !(v is Bool) ==> present(schemas_in(seq![v])).len() == 0,
    decreases y.len(),
{
    if y.len() == 0 {
        assert(x + y =~= x);
        assert(present(schemas_in(x)) + present(schemas_in(y)) =~= present(schemas_in(x)));
    } else {
        assert((x + y).drop_last() =~= x + y.drop_last());
        law_schemas_of_a_list(x, y.drop_last(), v);
        assert(schemas_in(x + y).drop_last() =~= schemas_in(x + y.drop_last()));
        assert(schemas_in(y).drop_last() =~= schemas_in(y.drop_last()));
        assert(present(schemas_in(x + y)) =~= present(schemas_in(x)) + present(schemas_in(y)));
    }
    let one = schemas_in(seq![v]);
    assert(one.drop_last() =~= Seq::empty());
    assert(present(Seq::empty()) =~= Seq::empty());
    assert(Seq::empty().push(schema_of(v)) =~= seq![schema_of(v)]);
}

/// A choice is told by its name, and of several the first of these counts: one of, all of,
/// any of.
pub proof fn law_choices_by_name(fields: Seq<(Seq<char>, JsonView)>)
    requires
        !(lookup(fields, "$ref"@) is Some && lookup(fields, "$ref"@)->0 is Text),
    ensures
        ({
            let s = schema_of(JsonView::Object(fields));
            let one = lookup(fields, "oneOf"@);
            let all = lookup(fields, "allOf"@);
            let any = lookup(fields, "anyOf"@);
            &&& list_under(fields, "oneOf"@) ==> s == SchemaView::OneOf(
                present(schemas_in(one->0->Array_0)),
            )
            &&& !list_under(fields, "oneOf"@) && list_under(fields, "allOf"@) ==> s
                == SchemaView::AllOf(present(schemas_in(all->0->Array_0)))
            &&& !list_under(fields, "oneOf"@) && !list_under(fields, "allOf"@) && list_under(
                fields,
                "anyOf"@,
            ) ==> s == SchemaView::AnyOf(present(schemas_in(any->0->Array_0)))
        }),
{
    lemma_object_schema(fields);
}

/// A schema without anything but its kind.
pub open spec fn bare(s: SchemaView, k: SchemaKind) -> bool {
    s matches SchemaView::Object {
        kind,
        properties,
        required,
        free_form,
        additional,
        text,
        number,
    } && kind == k && properties.len() == 0 && required.len() == 0 && free_form is None
        && additional is None && any_text(text) && any_number(number)
}

/// A truth value is told by its kind alone, null is told as a text, and what has no type
/// or one that is not known as an object.
pub proof fn law_other_types(fields: Seq<(Seq<char>, JsonView)>, t: Seq<char>)
    requires
        of_a_type(fields),
    ensures
        ({
            let s = schema_of(JsonView::Object(fields));
            let typed = lookup(fields, "type"@) == Some(JsonView::Text(t));
            &&& typed && t == "boolean"@ ==> bare(s, SchemaKind::Boolean)
            &&& typed && t == "null"@ ==> bare(s, SchemaKind::Text)
            &&& typed && t != "object"@ && t != "array"@ && t != "string"@ && t != "number"@ && t
                != "integer"@ && t != "boolean"@ && t != "null"@ ==> bare(s, SchemaKind::Object)
            &&& lookup(fields, "type"@) is None ==> bare(s, SchemaKind::Object)
        }),
{
    lemma_object_schema(fields);
    lemma_types();
}

/// Several types are any of the schemas that the object has with each of them alone, in
/// order.
pub proof fn law_several_types(
    fields: Seq<(Seq<char>, JsonView)>,
    types: Seq<JsonView>,
    i: int,
)
    requires
        of_a_type(fields),
        lookup(fields, "type"@) == Some(JsonView::Array(types)),
        0 <= i < only_texts(types).len(),
    ensures
        schema_of(JsonView::Object(fields)) matches SchemaView::AnyOf(list) && list.len()
            == only_texts(types).len() && list[i] == typed_schema(
            only_texts(types)[i],
            fields,
            children_of(fields),
        ),
{
    lemma_object_schema(fields);
}

} // verus!
