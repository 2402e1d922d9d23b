//! JSON schemas as the schemas of an API description.
use crate::assoc::{self, lookup, put};
use crate::base::{self, Duplicate};
use crate::json::{self, Json, JsonView};
use crate::text;
use vstd::prelude::*;
use vstd::string::*;

verus! {

/// The type of a schema without items.
#[derive(Debug, Clone, Copy, PartialEq, Eq, Structural)]
pub enum SchemaKind {
    Object,
    Text,
    Number,
    Integer,
    Boolean,
}

impl DeepView for SchemaKind {
    type V = SchemaKind;

    open spec fn deep_view(&self) -> SchemaKind {
        *self
    }
}

impl Duplicate for SchemaKind {
    fn duplicate(&self) -> (r: Self) {
        *self
    }
}

/// What a text has to be.
#[derive(Debug, PartialEq)]
pub struct TextLimits {
    pub min_length: Option<u64>,
    pub max_length: Option<u64>,
    pub pattern: Option<String>,
    pub format: Option<String>,
}

#[verifier::ext_equal]
pub struct TextLimitsView {
    pub min_length: Option<u64>,
    pub max_length: Option<u64>,
    pub pattern: Option<Seq<char>>,
    pub format: Option<Seq<char>>,
}

impl DeepView for TextLimits {
    type V = TextLimitsView;

    open spec fn deep_view(&self) -> TextLimitsView {
        TextLimitsView {
            min_length: self.min_length.deep_view(),
            max_length: self.max_length.deep_view(),
            pattern: self.pattern.deep_view(),
            format: self.format.deep_view(),
        }
    }
}

/// What a number has to be. The limits are numbers as JSON writes them.
#[derive(Debug, PartialEq)]
pub struct NumberLimits {
    pub minimum: Option<String>,
    pub maximum: Option<String>,
    pub exclusive_minimum: Option<String>,
    pub exclusive_maximum: Option<String>,
    pub multiple_of: Option<String>,
}

#[verifier::ext_equal]
pub struct NumberLimitsView {
    pub minimum: Option<Seq<char>>,
    pub maximum: Option<Seq<char>>,
    pub exclusive_minimum: Option<Seq<char>>,
    pub exclusive_maximum: Option<Seq<char>>,
    pub multiple_of: Option<Seq<char>>,
}

impl DeepView for NumberLimits {
    type V = NumberLimitsView;

    open spec fn deep_view(&self) -> NumberLimitsView {
        NumberLimitsView {
            minimum: self.minimum.deep_view(),
            maximum: self.maximum.deep_view(),
            exclusive_minimum: self.exclusive_minimum.deep_view(),
            exclusive_maximum: self.exclusive_maximum.deep_view(),
            multiple_of: self.multiple_of.deep_view(),
        }
    }
}

/// A schema of an API description.
#[derive(Debug, PartialEq)]
pub enum SchemaNode {
    Reference(String),
    OneOf(Vec<SchemaNode>),
    AllOf(Vec<SchemaNode>),
    AnyOf(Vec<SchemaNode>),
    Object {
        kind: SchemaKind,
        properties: Vec<(String, SchemaNode)>,
        required: Vec<String>,
        /// Whether other properties are allowed, where that is said.
        free_form: Option<bool>,
        /// What other properties have to be.
        additional: Option<Box<SchemaNode>>,
        text: TextLimits,
        number: NumberLimits,
    },
    Array { items: Option<Box<SchemaNode>>, min_items: Option<u64>, max_items: Option<u64> },
}

pub enum SchemaView {
    Reference(Seq<char>),
    OneOf(Seq<SchemaView>),
    AllOf(Seq<SchemaView>),
    AnyOf(Seq<SchemaView>),
    Object {
        kind: SchemaKind,
        properties: Seq<(Seq<char>, SchemaView)>,
        required: Seq<Seq<char>>,
        free_form: Option<bool>,
        additional: Option<Box<SchemaView>>,
        text: TextLimitsView,
        number: NumberLimitsView,
    },
    Array { items: Option<Box<SchemaView>>, min_items: Option<u64>, max_items: Option<u64> },
}

pub open spec fn schema_view(n: SchemaNode) -> SchemaView
    decreases n,
{
    match n {
        SchemaNode::Reference(s) => SchemaView::Reference(s@),
        SchemaNode::OneOf(items) => SchemaView::OneOf(
            Seq::new(
                items@.len(),
                |i: int|
                    if 0 <= i < items@.len() {
                        schema_view(items@[i])
                    } else {
                        SchemaView::Reference(Seq::empty())
                    },
            ),
        ),
        SchemaNode::AllOf(items) => SchemaView::AllOf(
            Seq::new(
                items@.len(),
                |i: int|
                    if 0 <= i < items@.len() {
                        schema_view(items@[i])
                    } else {
                        SchemaView::Reference(Seq::empty())
                    },
            ),
        ),
        SchemaNode::AnyOf(items) => SchemaView::AnyOf(
            Seq::new(
                items@.len(),
                |i: int|
                    if 0 <= i < items@.len() {
                        schema_view(items@[i])
                    } else {
                        SchemaView::Reference(Seq::empty())
                    },
            ),
        ),
        SchemaNode::Object {
            kind,
            properties,
            required,
            free_form,
            additional,
            text,
            number,
        } => SchemaView::Object {
            kind,
            properties: Seq::new(
                properties@.len(),
                |i: int|
                    if 0 <= i < properties@.len() {
                        (properties@[i].0@, schema_view(properties@[i].1))
                    } else {
                        (Seq::<char>::empty(), SchemaView::Reference(Seq::empty()))
                    },
            ),
            required: required.deep_view(),
            free_form,
            additional: match additional {
                Some(b) => Some(Box::new(schema_view(*b))),
                None => None,
            },
            text: text.deep_view(),
            number: number.deep_view(),
        },
        SchemaNode::Array { items, min_items, max_items } => SchemaView::Array {
            items: match items {
                Some(b) => Some(Box::new(schema_view(*b))),
                None => None,
            },
            min_items,
            max_items,
        },
    }
}

impl DeepView for SchemaNode {
    type V = SchemaView;

    open spec fn deep_view(&self) -> SchemaView {
        schema_view(*self)
    }
}

pub open spec fn no_text() -> TextLimitsView {
    TextLimitsView { min_length: None, max_length: None, pattern: None, format: None }
}

pub open spec fn no_number() -> NumberLimitsView {
    NumberLimitsView {
        minimum: None,
        maximum: None,
        exclusive_minimum: None,
        exclusive_maximum: None,
        multiple_of: None,
    }
}

/// A schema of a type and nothing more.
pub open spec fn plain_schema(kind: SchemaKind) -> SchemaView {
    SchemaView::Object {
        kind,
        properties: Seq::empty(),
        required: Seq::empty(),
        free_form: None,
        additional: None,
        text: no_text(),
        number: no_number(),
    }
}

/// A JSON value that can stand for a schema: a truth value or an object.
pub open spec fn is_schema(j: JsonView) -> bool {
    j is Bool || j is Object
}

/// The schemas of a list, without the values that can stand for none.
pub open spec fn present(list: Seq<Option<SchemaView>>) -> Seq<SchemaView>
    decreases list.len(),
{
    if list.len() == 0 {
        Seq::empty()
    } else {
        match list.last() {
            Some(s) => present(list.drop_last()).push(s),
            None => present(list.drop_last()),
        }
    }
}

/// The properties of an object, without those whose values can stand for no
/// schema.
pub open spec fn present_properties(list: Seq<(Seq<char>, Option<SchemaView>)>) -> Seq<
    (Seq<char>, SchemaView),
>
    decreases list.len(),
{
    if list.len() == 0 {
        Seq::empty()
    } else {
        match list.last().1 {
            Some(s) => put(present_properties(list.drop_last()), list.last().0, s),
            None => present_properties(list.drop_last()),
        }
    }
}

/// The index of the first field called `k`, or the number of fields.
pub open spec fn field_index(fields: Seq<(Seq<char>, JsonView)>, k: Seq<char>, i: int) -> int
    decreases fields.len() - i,
{
    if i < 0 || i >= fields.len() || fields[i].0 == k {
        i
    } else {
        field_index(fields, k, i + 1)
    }
}

/// The schemas that the values of an object's fields stand for.
pub struct Children {
    /// Those of the properties.
    pub properties: Seq<(Seq<char>, Option<SchemaView>)>,
    /// That of other properties.
    pub additional: Option<SchemaView>,
    /// That of the items, where there is one for all.
    pub item: Option<SchemaView>,
    /// Those of the items, where there is a list.
    pub item_list: Seq<Option<SchemaView>>,
}

/// The text of a field that is a text.
pub open spec fn text_at(fields: Seq<(Seq<char>, JsonView)>, k: Seq<char>) -> Option<Seq<char>> {
    match lookup(fields, k) {
        Some(JsonView::Text(s)) => Some(s),
        _ => None,
    }
}

/// The value of a field that is a number, where it is an unsigned integer.
pub open spec fn count_at(fields: Seq<(Seq<char>, JsonView)>, k: Seq<char>) -> Option<u64> {
    match lookup(fields, k) {
        Some(JsonView::Number { as_u64, .. }) => as_u64,
        _ => None,
    }
}

/// The text of a field that is a number.
pub open spec fn number_at(fields: Seq<(Seq<char>, JsonView)>, k: Seq<char>) -> Option<
    Seq<char>,
> {
    match lookup(fields, k) {
        Some(JsonView::Number { text, .. }) => Some(text),
        _ => None,
    }
}

/// The texts of a list.
pub open spec fn texts_in(v: Option<JsonView>) -> Seq<Seq<char>> {
    match v {
        Some(JsonView::Array(items)) => crate::permission_judge::only_texts(items),
        _ => Seq::empty(),
    }
}

pub open spec fn number_limits(fields: Seq<(Seq<char>, JsonView)>) -> NumberLimitsView {
    NumberLimitsView {
        minimum: number_at(fields, "minimum"@),
        maximum: number_at(fields, "maximum"@),
        exclusive_minimum: number_at(fields, "exclusiveMinimum"@),
        exclusive_maximum: number_at(fields, "exclusiveMaximum"@),
        multiple_of: number_at(fields, "multipleOf"@),
    }
}

pub open spec fn text_limits(fields: Seq<(Seq<char>, JsonView)>) -> TextLimitsView {
    TextLimitsView {
        min_length: count_at(fields, "minLength"@),
        max_length: count_at(fields, "maxLength"@),
        pattern: text_at(fields, "pattern"@),
        format: text_at(fields, "format"@),
    }
}

/// Whether other properties are allowed, where that is a truth value.
pub open spec fn free_form_of(fields: Seq<(Seq<char>, JsonView)>) -> Option<bool> {
    match lookup(fields, "additionalProperties"@) {
        Some(JsonView::Bool(b)) => Some(b),
        _ => None,
    }
}

/// The schema of the items: one for all, or any of a list.
pub open spec fn items_of(
    fields: Seq<(Seq<char>, JsonView)>,
    c: Children,
) -> Option<Box<SchemaView>> {
    match lookup(fields, "items"@) {
        Some(JsonView::Array(_)) => Some(Box::new(SchemaView::AnyOf(present(c.item_list)))),
        Some(_) => match c.item {
            Some(s) => Some(Box::new(s)),
            None => None,
        },
        None => None,
    }
}

/// The schema of one type. Null is described as a text, and a type that is not
/// known as an object.
pub open spec fn typed_schema(
    type_str: Seq<char>,
    fields: Seq<(Seq<char>, JsonView)>,
    c: Children,
) -> SchemaView {
    if type_str == "object"@ {
        SchemaView::Object {
            kind: SchemaKind::Object,
            properties: present_properties(c.properties),
            required: texts_in(lookup(fields, "required"@)),
            free_form: free_form_of(fields),
            additional: match c.additional {
                Some(s) => Some(Box::new(s)),
                None => None,
            },
            text: no_text(),
            number: no_number(),
        }
    } else if type_str == "array"@ {
        SchemaView::Array {
            items: items_of(fields, c),
            min_items: count_at(fields, "minItems"@),
            max_items: count_at(fields, "maxItems"@),
        }
    } else if type_str == "string"@ {
        SchemaView::Object {
            kind: SchemaKind::Text,
            properties: Seq::empty(),
            required: Seq::empty(),
            free_form: None,
            additional: None,
            text: text_limits(fields),
            number: no_number(),
        }
    } else if type_str == "number"@ || type_str == "integer"@ {
        SchemaView::Object {
            kind: if type_str == "number"@ {
                SchemaKind::Number
            } else {
                SchemaKind::Integer
            },
            properties: Seq::empty(),
            required: Seq::empty(),
            free_form: None,
            additional: None,
            text: no_text(),
            number: number_limits(fields),
        }
    } else if type_str == "boolean"@ {
        plain_schema(SchemaKind::Boolean)
    } else if type_str == "null"@ {
        plain_schema(SchemaKind::Text)
    } else {
        plain_schema(SchemaKind::Object)
    }
}

/// What the schemas of several types are together.
pub open spec fn typed_schemas(
    types: Seq<Seq<char>>,
    fields: Seq<(Seq<char>, JsonView)>,
    c: Children,
) -> Seq<SchemaView> {
    types.map_values(|t: Seq<char>| typed_schema(t, fields, c))
}

/// The schema that a JSON value stands for: a reference, a choice, or a schema of
/// one or several types.
pub open spec fn schema_of(j: JsonView) -> SchemaView
    decreases j,
{
    match j {
        JsonView::Object(fields) => {
            let one = field_index(fields, "oneOf"@, 0);
            let all = field_index(fields, "allOf"@, 0);
            let any = field_index(fields, "anyOf"@, 0);
            let props = field_index(fields, "properties"@, 0);
            let add = field_index(fields, "additionalProperties"@, 0);
            let item = field_index(fields, "items"@, 0);
            if text_at(fields, "$ref"@) is Some {
                SchemaView::Reference(text_at(fields, "$ref"@)->0)
            } else if 0 <= one < fields.len() && fields[one].1 is Array {
                let items = fields[one].1->Array_0;
                SchemaView::OneOf(
                    present(
                        Seq::new(
                            items.len(),
                            |i: int|
                                if 0 <= i < items.len() && is_schema(items[i]) {
                                    Some(schema_of(items[i]))
                                } else {
                                    None
                                },
                        ),
                    ),
                )
            } else if 0 <= all < fields.len() && fields[all].1 is Array {
                let items = fields[all].1->Array_0;
                SchemaView::AllOf(
                    present(
                        Seq::new(
                            items.len(),
                            |i: int|
                                if 0 <= i < items.len() && is_schema(items[i]) {
                                    Some(schema_of(items[i]))
                                } else {
                                    None
                                },
                        ),
                    ),
                )
            } else if 0 <= any < fields.len() && fields[any].1 is Array {
                let items = fields[any].1->Array_0;
                SchemaView::AnyOf(
                    present(
                        Seq::new(
                            items.len(),
                            |i: int|
                                if 0 <= i < items.len() && is_schema(items[i]) {
                                    Some(schema_of(items[i]))
                                } else {
                                    None
                                },
                        ),
                    ),
                )
            } else {
                let properties = if 0 <= props < fields.len() && fields[props].1 is Object {
                    let list = fields[props].1->Object_0;
                    Seq::new(
                        list.len(),
                        |i: int|
                            if 0 <= i < list.len() && is_schema(list[i].1) {
                                (list[i].0, Some(schema_of(list[i].1)))
                            } else {
                                (list[i].0, None)
                            },
                    )
                } else {
                    Seq::empty()
                };
                let additional = if 0 <= add < fields.len() && fields[add].1 is Object {
                    Some(schema_of(fields[add].1))
                } else {
                    None
                };
                let single = if 0 <= item < fields.len() && is_schema(fields[item].1) {
                    Some(schema_of(fields[item].1))
                } else {
                    None
                };
                let item_list = if 0 <= item < fields.len() && fields[item].1 is Array {
                    let items = fields[item].1->Array_0;
                    Seq::new(
                        items.len(),
                        |i: int|
                            if 0 <= i < items.len() && is_schema(items[i]) {
                                Some(schema_of(items[i]))
                            } else {
                                None
                            },
                    )
                } else {
                    Seq::empty()
                };
                let c = Children { properties, additional, item: single, item_list };
                match lookup(fields, "type"@) {
                    Some(JsonView::Text(t)) => typed_schema(t, fields, c),
                    Some(JsonView::Array(types)) => SchemaView::AnyOf(
                        typed_schemas(crate::permission_judge::only_texts(types), fields, c),
                    ),
                    _ => plain_schema(SchemaKind::Object),
                }
            }
        },
        _ => plain_schema(SchemaKind::Object),
    }
}

/// The schemas that the items of a list stand for.
pub open spec fn schemas_in(items: Seq<JsonView>) -> Seq<Option<SchemaView>> {
    items.map_values(
        |v: JsonView|
            if is_schema(v) {
                Some(schema_of(v))
            } else {
                None
            },
    )
}

/// The schemas that the values of fields stand for.
pub open spec fn schemas_under(list: Seq<(Seq<char>, JsonView)>) -> Seq<
    (Seq<char>, Option<SchemaView>),
> {
    list.map_values(
        |f: (Seq<char>, JsonView)|
            if is_schema(f.1) {
                (f.0, Some(schema_of(f.1)))
            } else {
                (f.0, None)
            },
    )
}

/// The schemas that the values of an object's fields stand for.
pub open spec fn children_of(fields: Seq<(Seq<char>, JsonView)>) -> Children {
    Children {
        properties: match lookup(fields, "properties"@) {
            Some(JsonView::Object(list)) => schemas_under(list),
            _ => Seq::empty(),
        },
        additional: match lookup(fields, "additionalProperties"@) {
            Some(v) => if v is Object {
                Some(schema_of(v))
            } else {
                None
            },
            None => None,
        },
        item: match lookup(fields, "items"@) {
            Some(v) => if is_schema(v) {
                Some(schema_of(v))
            } else {
                None
            },
            None => None,
        },
        item_list: match lookup(fields, "items"@) {
            Some(JsonView::Array(items)) => schemas_in(items),
            _ => Seq::empty(),
        },
    }
}

/// The schema that an object stands for.
pub open spec fn object_schema(fields: Seq<(Seq<char>, JsonView)>) -> SchemaView {
    if let Some(r) = text_at(fields, "$ref"@) {
        SchemaView::Reference(r)
    } else if let Some(JsonView::Array(items)) = lookup(fields, "oneOf"@) {
        SchemaView::OneOf(present(schemas_in(items)))
    } else if let Some(JsonView::Array(items)) = lookup(fields, "allOf"@) {
        SchemaView::AllOf(present(schemas_in(items)))
    } else if let Some(JsonView::Array(items)) = lookup(fields, "anyOf"@) {
        SchemaView::AnyOf(present(schemas_in(items)))
    } else {
        match lookup(fields, "type"@) {
            Some(JsonView::Text(t)) => typed_schema(t, fields, children_of(fields)),
            Some(JsonView::Array(types)) => SchemaView::AnyOf(
                typed_schemas(
                    crate::permission_judge::only_texts(types),
                    fields,
                    children_of(fields),
                ),
            ),
            _ => plain_schema(SchemaKind::Object),
        }
    }
}

proof fn lemma_field_index(fields: Seq<(Seq<char>, JsonView)>, k: Seq<char>, i: int)
    requires
        0 <= i <= fields.len(),
        forall|j: int| 0 <= j < i ==> (#[trigger] fields[j]).0 != k,
    ensures
        ({
            let n = field_index(fields, k, i);
            &&& i <= n <= fields.len()
            &&& lookup(fields, k) == if n < fields.len() {
                Some(fields[n].1)
            } else {
                None
            }
        }),
    decreases fields.len() - i,
{
    if i == fields.len() {
        assoc::lemma_lookup_is_some(fields, k);
    } else if fields[i].0 == k {
        assoc::lemma_lookup_at(fields, k, i);
    } else {
        lemma_field_index(fields, k, i + 1);
    }
}

/// Two lists of the same schemas have the same schemas present.
proof fn lemma_present(b: Seq<Option<SchemaView>>)
    ensures
        forall|a: Seq<Option<SchemaView>>|
            a.len() == b.len() && (forall|i: int| 0 <= i < b.len() ==> a[i] == b[i])
                ==> #[trigger] present(a) == present(b),
{
    assert forall|a: Seq<Option<SchemaView>>|
        a.len() == b.len() && (forall|i: int| 0 <= i < b.len() ==> a[i] == b[i]) implies
        #[trigger] present(a) == present(b) by {
        assert(a =~= b);
    }
}

/// Two ways to write the same children describe the same types.
proof fn lemma_children(fields: Seq<(Seq<char>, JsonView)>, b: Children)
    ensures
        forall|a: Children, t: Seq<char>|
            same_children(a, b) ==> #[trigger] typed_schema(t, fields, a) == typed_schema(
                t,
                fields,
                b,
            ),
        forall|a: Children, t: Seq<Seq<char>>|
            same_children(a, b) ==> #[trigger] typed_schemas(t, fields, a) == typed_schemas(
                t,
                fields,
                b,
            ),
{
    assert forall|a: Children| #[trigger] same_children(a, b) implies a == b by {
        assert(a.properties =~= b.properties);
        assert(a.item_list =~= b.item_list);
    }
}

spec fn same_children(a: Children, b: Children) -> bool {
    &&& a.additional == b.additional
    &&& a.item == b.item
    &&& a.properties.len() == b.properties.len()
    &&& forall|i: int| 0 <= i < b.properties.len() ==> a.properties[i] == b.properties[i]
    &&& a.item_list.len() == b.item_list.len()
    &&& forall|i: int| 0 <= i < b.item_list.len() ==> a.item_list[i] == b.item_list[i]
}

/// The schema of an object, without indices.
pub proof fn lemma_object_schema(fields: Seq<(Seq<char>, JsonView)>)
    ensures
        schema_of(JsonView::Object(fields)) == object_schema(fields),
{
    lemma_field_index(fields, "oneOf"@, 0);
    lemma_field_index(fields, "allOf"@, 0);
    lemma_field_index(fields, "anyOf"@, 0);
    lemma_field_index(fields, "properties"@, 0);
    lemma_field_index(fields, "additionalProperties"@, 0);
    lemma_field_index(fields, "items"@, 0);
    if let Some(JsonView::Array(items)) = lookup(fields, "oneOf"@) {
        lemma_present(schemas_in(items));
    }
    if let Some(JsonView::Array(items)) = lookup(fields, "allOf"@) {
        lemma_present(schemas_in(items));
    }
    if let Some(JsonView::Array(items)) = lookup(fields, "anyOf"@) {
        lemma_present(schemas_in(items));
    }
    lemma_children(fields, children_of(fields));
}

proof fn lemma_lists(items: Vec<SchemaNode>)
    ensures
        schema_view(SchemaNode::OneOf(items)) == SchemaView::OneOf(items.deep_view()),
        schema_view(SchemaNode::AllOf(items)) == SchemaView::AllOf(items.deep_view()),
        schema_view(SchemaNode::AnyOf(items)) == SchemaView::AnyOf(items.deep_view()),
{
    assert(schema_view(SchemaNode::OneOf(items))->OneOf_0 =~= items.deep_view());
    assert(schema_view(SchemaNode::AllOf(items))->AllOf_0 =~= items.deep_view());
    assert(schema_view(SchemaNode::AnyOf(items))->AnyOf_0 =~= items.deep_view());
}

fn empty_text() -> (r: TextLimits)
    ensures
        r.deep_view() == no_text(),
{
    TextLimits { min_length: None, max_length: None, pattern: None, format: None }
}

fn empty_number() -> (r: NumberLimits)
    ensures
        r.deep_view() == no_number(),
{
    NumberLimits {
        minimum: None,
        maximum: None,
        exclusive_minimum: None,
        exclusive_maximum: None,
        multiple_of: None,
    }
}

/// A schema without items.
fn object_node(
    kind: SchemaKind,
    properties: Vec<(String, SchemaNode)>,
    required: Vec<String>,
    free_form: Option<bool>,
    additional: Option<SchemaNode>,
    text: TextLimits,
    number: NumberLimits,
) -> (r: SchemaNode)
    ensures
        r.deep_view() == (SchemaView::Object {
            kind,
            properties: properties.deep_view(),
            required: required.deep_view(),
            free_form,
            additional: match additional {
                Some(s) => Some(Box::new(s.deep_view())),
                None => None,
            },
            text: text.deep_view(),
            number: number.deep_view(),
        }),
{
    let boxed = match additional {
        Some(s) => Some(Box::new(s)),
        None => None,
    };
    let r = SchemaNode::Object {
        kind,
        properties,
        required,
        free_form,
        additional: boxed,
        text,
        number,
    };
    assert(schema_view(r)->properties =~= properties.deep_view());
    r
}

/// A schema of a type with limits and nothing more.
fn limited_node(kind: SchemaKind, text: TextLimits, number: NumberLimits) -> (r: SchemaNode)
    ensures
        r.deep_view() == (SchemaView::Object {
            kind,
            properties: Seq::empty(),
            required: Seq::empty(),
            free_form: None,
            additional: None,
            text: text.deep_view(),
            number: number.deep_view(),
        }),
{
    let properties: Vec<(String, SchemaNode)> = Vec::new();
    let required: Vec<String> = Vec::new();
    assert(properties.deep_view() =~= Seq::<(Seq<char>, SchemaView)>::empty());
    assert(required.deep_view() =~= Seq::<Seq<char>>::empty());
    object_node(kind, properties, required, None, None, text, number)
}

fn plain_node(kind: SchemaKind) -> (r: SchemaNode)
    ensures
        r.deep_view() == plain_schema(kind),
{
    limited_node(kind, empty_text(), empty_number())
}

fn get_text(fields: &Vec<(String, Json)>, k: &str) -> (r: Option<String>)
    ensures
        r.deep_view() == text_at(fields.deep_view(), k@),
{
    match assoc::get(fields, k) {
        Some(Json::Text(s)) => Some(s.clone()),
        _ => None,
    }
}

fn get_count(fields: &Vec<(String, Json)>, k: &str) -> (r: Option<u64>)
    ensures
        r == count_at(fields.deep_view(), k@),
{
    match assoc::get(fields, k) {
        Some(Json::Number(n)) => n.as_u64,
        _ => None,
    }
}

fn get_number(fields: &Vec<(String, Json)>, k: &str) -> (r: Option<String>)
    ensures
        r.deep_view() == number_at(fields.deep_view(), k@),
{
    match assoc::get(fields, k) {
        Some(Json::Number(n)) => Some(n.text.clone()),
        _ => None,
    }
}

fn get_texts(fields: &Vec<(String, Json)>, k: &str) -> (r: Vec<String>)
    ensures
        r.deep_view() == texts_in(lookup(fields.deep_view(), k@)),
{
    if let Some(v) = assoc::get(fields, k) {
        if let Some(items) = v.as_array() {
            return crate::permission_judge::texts_of(items);
        }
    }
    let none: Vec<String> = Vec::new();
    assert(none.deep_view() =~= Seq::<Seq<char>>::empty());
    none
}

/// The schemas that the items of a list stand for.
fn convert_list(items: &Vec<Json>) -> (r: Vec<SchemaNode>)
    ensures
        r.deep_view() == present(schemas_in(items.deep_view())),
    decreases *items, 1int,
{
    let mut out: Vec<SchemaNode> = Vec::new();
    let ghost all = schemas_in(items.deep_view());
    let mut i: usize = 0;
    assert(out.deep_view() =~= present(all.take(0)));
    while i < items.len()
        invariant
            i <= items@.len(),
            all == schemas_in(items.deep_view()),
            out.deep_view() == present(all.take(i as int)),
        decreases items@.len() - i,
    {
        assert(all.take(i + 1).drop_last() =~= all.take(i as int));
        let accepted = match &items[i] {
            Json::Bool(_) => true,
            Json::Object(_) => true,
            _ => false,
        };
        if accepted {
            let s = convert_schemars_to_utoipa(&items[i]);
            base::push(&mut out, s);
        }
        i = i + 1;
    }
    assert(all.take(all.len() as int) =~= all);
    out
}

/// The schemas that properties stand for.
fn convert_properties(list: &Vec<(String, Json)>) -> (r: Vec<(String, SchemaNode)>)
    ensures
        r.deep_view() == present_properties(schemas_under(list.deep_view())),
    decreases *list, 1int,
{
    let mut out: Vec<(String, SchemaNode)> = Vec::new();
    let ghost all = schemas_under(list.deep_view());
    let mut i: usize = 0;
    assert(out.deep_view() =~= present_properties(all.take(0)));
    while i < list.len()
        invariant
            i <= list@.len(),
            all == schemas_under(list.deep_view()),
            out.deep_view() == present_properties(all.take(i as int)),
        decreases list@.len() - i,
    {
        assert(all.take(i + 1).drop_last() =~= all.take(i as int));
        let accepted = match &list[i].1 {
            Json::Bool(_) => true,
            Json::Object(_) => true,
            _ => false,
        };
        if accepted {
            let s = convert_schemars_to_utoipa(&list[i].1);
            assoc::insert(&mut out, list[i].0.clone(), s);
        }
        i = i + 1;
    }
    assert(all.take(all.len() as int) =~= all);
    out
}

/// The value of a field, by its index, which is a part of the fields.
fn field_at<'a>(fields: &'a Vec<(String, Json)>, k: &str) -> (r: Option<usize>)
    ensures
        match r {
            Some(i) => i < fields@.len() && lookup(fields.deep_view(), k@) == Some(
                fields@[i as int].1.deep_view(),
            ),
            None => lookup(fields.deep_view(), k@) is None,
        },
{
    match assoc::position(fields, k) {
        Some(i) => {
            proof {
                assoc::lemma_lookup_at(fields.deep_view(), k@, i as int);
            }
            Some(i)
        },
        None => {
            proof {
                assoc::lemma_lookup_is_some(fields.deep_view(), k@);
            }
            None
        },
    }
}

/// The schema of an object with properties.
fn convert_object_type(fields: &Vec<(String, Json)>) -> (r: SchemaNode)
    ensures
        r.deep_view() == typed_schema(
            "object"@,
            fields.deep_view(),
            children_of(fields.deep_view()),
        ),
    decreases *fields, 2int,
{
    let mut properties: Vec<(String, SchemaNode)> = Vec::new();
    assert(properties.deep_view() =~= present_properties(Seq::empty()));
    if let Some(i) = field_at(fields, "properties") {
        if let Json::Object(list) = &fields[i].1 {
            proof {
                json::lemma_object_view(*list);
            }
            properties = convert_properties(list);
        }
    }
    let mut free_form: Option<bool> = None;
    let mut additional: Option<SchemaNode> = None;
    if let Some(i) = field_at(fields, "additionalProperties") {
        match &fields[i].1 {
            Json::Bool(b) => {
                free_form = Some(*b);
            },
            Json::Object(_) => {
                additional = Some(convert_schemars_to_utoipa(&fields[i].1));
            },
            _ => {},
        }
    }
    let required = get_texts(fields, "required");
    object_node(
        SchemaKind::Object,
        properties,
        required,
        free_form,
        additional,
        empty_text(),
        empty_number(),
    )
}

/// The schema of an array.
fn convert_array_type(fields: &Vec<(String, Json)>) -> (r: SchemaNode)
    ensures
        r.deep_view() == typed_schema(
            "array"@,
            fields.deep_view(),
            children_of(fields.deep_view()),
        ),
    decreases *fields, 2int,
{
    proof {
        lemma_type_names();
    }
    let mut items: Option<Box<SchemaNode>> = None;
    if let Some(i) = field_at(fields, "items") {
        match &fields[i].1 {
            Json::Array(list) => {
                proof {
                    json::lemma_array_view(*list);
                }
                let any = convert_list(list);
                proof {
                    lemma_lists(any);
                }
                items = Some(Box::new(SchemaNode::AnyOf(any)));
            },
            Json::Object(_) => {
                items = Some(Box::new(convert_schemars_to_utoipa(&fields[i].1)));
            },
            Json::Bool(_) => {
                items = Some(Box::new(convert_schemars_to_utoipa(&fields[i].1)));
            },
            _ => {},
        }
    }
    SchemaNode::Array {
        items,
        min_items: get_count(fields, "minItems"),
        max_items: get_count(fields, "maxItems"),
    }
}

/// The names of the types differ.
proof fn lemma_type_names()
    ensures
        "array"@ != "object"@,
{
    reveal_strlit("array");
    reveal_strlit("object");
    assert("array"@.len() != "object"@.len());
}

fn convert_number_type(kind: SchemaKind, fields: &Vec<(String, Json)>) -> (r: SchemaNode)
    ensures
        r.deep_view() == (SchemaView::Object {
            kind,
            properties: Seq::empty(),
            required: Seq::empty(),
            free_form: None,
            additional: None,
            text: no_text(),
            number: number_limits(fields.deep_view()),
        }),
{
    let number = NumberLimits {
        minimum: get_number(fields, "minimum"),
        maximum: get_number(fields, "maximum"),
        exclusive_minimum: get_number(fields, "exclusiveMinimum"),
        exclusive_maximum: get_number(fields, "exclusiveMaximum"),
        multiple_of: get_number(fields, "multipleOf"),
    };
    limited_node(kind, empty_text(), number)
}

/// The schema of one type.
pub fn convert_typed_schema(type_str: &str, fields: &Vec<(String, Json)>) -> (r: SchemaNode)
    ensures
        r.deep_view() == typed_schema(
            type_str@,
            fields.deep_view(),
            children_of(fields.deep_view()),
        ),
    decreases *fields, 3int,
{
    if text::str_eq(type_str, "object") {
        convert_object_type(fields)
    } else if text::str_eq(type_str, "array") {
        convert_array_type(fields)
    } else if text::str_eq(type_str, "string") {
        let limits = TextLimits {
            min_length: get_count(fields, "minLength"),
            max_length: get_count(fields, "maxLength"),
            pattern: get_text(fields, "pattern"),
            format: get_text(fields, "format"),
        };
        limited_node(SchemaKind::Text, limits, empty_number())
    } else if text::str_eq(type_str, "number") {
        convert_number_type(SchemaKind::Number, fields)
    } else if text::str_eq(type_str, "integer") {
        convert_number_type(SchemaKind::Integer, fields)
    } else if text::str_eq(type_str, "boolean") {
        plain_node(SchemaKind::Boolean)
    } else if text::str_eq(type_str, "null") {
        plain_node(SchemaKind::Text)
    } else {
        plain_node(SchemaKind::Object)
    }
}

/// The schema that an object stands for.
pub fn convert_json_object_to_utoipa(fields: &Vec<(String, Json)>) -> (r: SchemaNode)
    ensures
        r.deep_view() == object_schema(fields.deep_view()),
    decreases *fields, 4int,
{
    if let Some(reference) = get_text(fields, "$ref") {
        return SchemaNode::Reference(reference);
    }
    if let Some(i) = field_at(fields, "oneOf") {
        if let Json::Array(items) = &fields[i].1 {
            proof {
                json::lemma_array_view(*items);
            }
            let list = convert_list(items);
            proof {
                lemma_lists(list);
            }
            return SchemaNode::OneOf(list);
        }
    }
    if let Some(i) = field_at(fields, "allOf") {
        if let Json::Array(items) = &fields[i].1 {
            proof {
                json::lemma_array_view(*items);
            }
            let list = convert_list(items);
            proof {
                lemma_lists(list);
            }
            return SchemaNode::AllOf(list);
        }
    }
    if let Some(i) = field_at(fields, "anyOf") {
        if let Json::Array(items) = &fields[i].1 {
            proof {
                json::lemma_array_view(*items);
            }
            let list = convert_list(items);
            proof {
                lemma_lists(list);
            }
            return SchemaNode::AnyOf(list);
        }
    }
    match assoc::get(fields, "type") {
        Some(Json::Text(t)) => convert_typed_schema(t, fields),
        Some(Json::Array(types)) => {
            proof {
                json::lemma_array_view(*types);
            }
            let names = crate::permission_judge::texts_of(types);
            let ghost all = typed_schemas(
                names.deep_view(),
                fields.deep_view(),
                children_of(fields.deep_view()),
            );
            let mut list: Vec<SchemaNode> = Vec::new();
            let mut k: usize = 0;
            while k < names.len()
                invariant
                    k <= names@.len(),
                    all == typed_schemas(
                        names.deep_view(),
                        fields.deep_view(),
                        children_of(fields.deep_view()),
                    ),
                    list.deep_view() == all.take(k as int),
                decreases names@.len() - k,
            {
                let s = convert_typed_schema(&names[k], fields);
                base::push(&mut list, s);
                assert(list.deep_view() =~= all.take(k + 1));
                k = k + 1;
            }
            assert(list.deep_view() =~= all);
            proof {
                lemma_lists(list);
            }
            SchemaNode::AnyOf(list)
        },
        _ => plain_node(SchemaKind::Object),
    }
}

/// The schema that a JSON value stands for: an object stands for what its fields
/// say, and any other value for an object of which nothing is said.
pub fn convert_schemars_to_utoipa(schema: &Json) -> (r: SchemaNode)
    ensures
        r.deep_view() == schema_of(schema.deep_view()),
    decreases *schema, 5int,
{
    match schema {
        Json::Object(fields) => {
            proof {
                json::lemma_object_view(*fields);
                lemma_object_schema(fields.deep_view());
            }
            convert_json_object_to_utoipa(fields)
        },
        _ => plain_node(SchemaKind::Object),
    }
}

/// A reference hides everything else that an object says.
pub proof fn law_reference_first(fields: Seq<(Seq<char>, JsonView)>, r: Seq<char>)
    requires
        text_at(fields, "$ref"@) == Some(r),
    ensures
        schema_of(JsonView::Object(fields)) == SchemaView::Reference(r),
{
    lemma_object_schema(fields);
}

/// What is not an object says nothing: `true`, `false` and any other value stand
/// for an object without properties.
pub proof fn law_plain_values(j: JsonView)
    requires
        !(j is Object),
    ensures
        schema_of(j) == plain_schema(SchemaKind::Object),
{
}

proof fn lemma_present_len(list: Seq<Option<SchemaView>>)
    requires
        forall|i: int| 0 <= i < list.len() ==> (#[trigger] list[i]) is Some,
    ensures
        present(list).len() == list.len(),
        forall|i: int| 0 <= i < list.len() ==> #[trigger] present(list)[i] == list[i]->0,
    decreases list.len(),
{
    if list.len() > 0 {
        let rest = list.drop_last();
        assert forall|i: int| 0 <= i < rest.len() implies (#[trigger] rest[i]) is Some by {
            assert(rest[i] == list[i]);
        }
        lemma_present_len(rest);
        assert(list[list.len() - 1] == list.last());
        assert forall|i: int| 0 <= i < list.len() implies #[trigger] present(list)[i]
            == list[i]->0 by {
            if i < rest.len() {
                assert(present(rest)[i] == rest[i]->0);
            }
        }
    }
}

/// A choice between schemas keeps all of them, in order, each converted by itself.
pub proof fn law_choice_keeps_all(fields: Seq<(Seq<char>, JsonView)>, items: Seq<JsonView>)
    requires
        text_at(fields, "$ref"@) is None,
        lookup(fields, "oneOf"@) == Some(JsonView::Array(items)),
        forall|i: int| 0 <= i < items.len() ==> is_schema(#[trigger] items[i]),
    ensures
        schema_of(JsonView::Object(fields)) matches SchemaView::OneOf(list) && list.len()
            == items.len() && forall|i: int|
            0 <= i < items.len() ==> #[trigger] list[i] == schema_of(items[i]),
{
    lemma_object_schema(fields);
    let list = schemas_in(items);
    assert forall|i: int| 0 <= i < list.len() implies (#[trigger] list[i]) is Some by {
        assert(is_schema(items[i]));
    }
    lemma_present_len(list);
    assert forall|i: int| 0 <= i < items.len() implies #[trigger] present(list)[i] == schema_of(
        items[i],
    ) by {
        assert(list[i] is Some);
        assert(is_schema(items[i]));
    }
}

} // verus!
