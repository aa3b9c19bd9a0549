//! JSON bodies. The tree keeps every blank and line break between the tokens,
//! so that a value can be written back character for character.

use vstd::prelude::*;
use vstd::string::*;
use crate::ast::template::{Placeholder, Template};
use crate::text::{bool_str, bool_text, push_char};

verus! {

/// A JSON value.
#[derive(Debug, PartialEq, Eq)]
pub enum JsonValue {
    Placeholder(Placeholder),
    Number(String),
    String(Template),
    Boolean(bool),
    List { space0: String, elements: Vec<JsonListElement> },
    Object { space0: String, elements: Vec<JsonObjectElement> },
    Null,
}

/// One item of a JSON list, with the space before and after it.
#[derive(Debug, PartialEq, Eq)]
pub struct JsonListElement {
    pub space0: String,
    pub value: JsonValue,
    pub space1: String,
}

/// One member of a JSON object: name, colon and value, with the space around
/// each.
#[derive(Debug, PartialEq, Eq)]
pub struct JsonObjectElement {
    pub space0: String,
    pub name: Template,
    pub space1: String,
    pub space2: String,
    pub value: JsonValue,
    pub space3: String,
}

/// The comma that stands before every item but the first.
pub open spec fn comma_before(index: int) -> Seq<char> {
    if index > 0 {
        seq![',']
    } else {
        Seq::empty()
    }
}

/// The text of a JSON value.
pub open spec fn json_source(value: JsonValue) -> Seq<char>
    decreases value,
{
    match value {
        JsonValue::Placeholder(p) => p.source(),
        JsonValue::Number(s) => s@,
        JsonValue::String(t) => t.source(),
        JsonValue::Boolean(b) => bool_text(b),
        JsonValue::List { space0, elements } => seq!['['] + space0@ + json_list_source(
            elements,
            elements@.len(),
        ) + seq![']'],
        JsonValue::Object { space0, elements } => seq!['{'] + space0@ + json_object_source(
            elements,
            elements@.len(),
        ) + seq!['}'],
        JsonValue::Null => "null"@,
    }
}

/// The text of the first `n` items of a JSON list, commas between them.
pub open spec fn json_list_source(elements: Vec<JsonListElement>, n: nat) -> Seq<char>
    decreases elements, n,
{
    if n == 0 || n > elements@.len() {
        Seq::empty()
    } else {
        json_list_source(elements, (n - 1) as nat) + comma_before(n - 1) + elements[n
            - 1].space0@ + json_source(elements[n - 1].value) + elements[n - 1].space1@
    }
}

/// The text of the first `n` members of a JSON object, commas between them.
pub open spec fn json_object_source(elements: Vec<JsonObjectElement>, n: nat) -> Seq<char>
    decreases elements, n,
{
    if n == 0 || n > elements@.len() {
        Seq::empty()
    } else {
        json_object_source(elements, (n - 1) as nat) + comma_before(n - 1) + elements[n
            - 1].space0@ + elements[n - 1].name.source() + elements[n - 1].space1@ + seq![':']
            + elements[n - 1].space2@ + json_source(elements[n - 1].value) + elements[n
            - 1].space3@
    }
}

impl JsonValue {
    pub open spec fn source(&self) -> Seq<char> {
        json_source(*self)
    }

    /// The value as the document writes it.
    pub fn to_source(&self) -> (s: String)
        ensures
            s@ == self.source(),
        decreases *self, 0nat,
    {
        match self {
            JsonValue::Placeholder(p) => p.to_source(),
            JsonValue::Number(n) => n.clone(),
            JsonValue::String(t) => t.to_source(),
            JsonValue::Boolean(b) => bool_str(*b).to_string(),
            JsonValue::List { space0, elements } => {
                let mut s = String::new();
                push_char(&mut s, '[');
                s.append(space0.as_str());
                let items = list_to_source(elements);
                s.append(items.as_str());
                push_char(&mut s, ']');
                proof {
                    assert(s@ =~= self.source());
                }
                s
            },
            JsonValue::Object { space0, elements } => {
                let mut s = String::new();
                push_char(&mut s, '{');
                s.append(space0.as_str());
                let items = object_to_source(elements);
                s.append(items.as_str());
                push_char(&mut s, '}');
                proof {
                    assert(s@ =~= self.source());
                }
                s
            },
            JsonValue::Null => "null".to_string(),
        }
    }
}

fn list_to_source(elements: &Vec<JsonListElement>) -> (s: String)
    ensures
        s@ == json_list_source(*elements, elements@.len()),
    decreases *elements, 1nat,
{
    let mut s = String::new();
    let mut i: usize = 0;
    while i < elements.len()
        invariant
            i <= elements@.len(),
            s@ == json_list_source(*elements, i as nat),
        decreases elements@.len() - i,
    {
        if i > 0 {
            push_char(&mut s, ',');
        }
        s.append(elements[i].space0.as_str());
        let value = elements[i].value.to_source();
        s.append(value.as_str());
        s.append(elements[i].space1.as_str());
        i = i + 1;
        proof {
            assert(s@ =~= json_list_source(*elements, i as nat));
        }
    }
    s
}

fn object_to_source(elements: &Vec<JsonObjectElement>) -> (s: String)
    ensures
        s@ == json_object_source(*elements, elements@.len()),
    decreases *elements, 1nat,
{
    let mut s = String::new();
    let mut i: usize = 0;
    while i < elements.len()
        invariant
            i <= elements@.len(),
            s@ == json_object_source(*elements, i as nat),
        decreases elements@.len() - i,
    {
        if i > 0 {
            push_char(&mut s, ',');
        }
        s.append(elements[i].space0.as_str());
        let name = elements[i].name.to_source();
        s.append(name.as_str());
        s.append(elements[i].space1.as_str());
        push_char(&mut s, ':');
        s.append(elements[i].space2.as_str());
        let value = elements[i].value.to_source();
        s.append(value.as_str());
        s.append(elements[i].space3.as_str());
        i = i + 1;
        proof {
            assert(s@ =~= json_object_source(*elements, i as nat));
        }
    }
    s
}

/// Whether the list item `b` is the item `a` over again.
pub open spec fn same_list_element(a: JsonListElement, b: JsonListElement) -> bool
    decreases a,
{
    a.space0 == b.space0 && same_json(a.value, b.value) && a.space1 == b.space1
}

/// Whether the object member `b` is the member `a` over again.
pub open spec fn same_object_element(a: JsonObjectElement, b: JsonObjectElement) -> bool
    decreases a,
{
    a.space0 == b.space0 && a.name.same_as(b.name) && a.space1 == b.space1 && a.space2 == b.space2
        && same_json(a.value, b.value) && a.space3 == b.space3
}

/// Whether the JSON value `b` is the value `a` over again: of the same kind,
/// with the same tokens and the same space between them, item by item.
pub open spec fn same_json(a: JsonValue, b: JsonValue) -> bool
    decreases a,
{
    match a {
        JsonValue::Placeholder(p) => b == JsonValue::Placeholder(p),
        JsonValue::Number(n) => b == JsonValue::Number(n),
        JsonValue::String(t) => b matches JsonValue::String(u) && t.same_as(u),
        JsonValue::Boolean(v) => b == JsonValue::Boolean(v),
        JsonValue::List { space0, elements } => {
            &&& b matches JsonValue::List { space0: other_space, elements: others }
            &&& space0 == other_space
            &&& elements@.len() == others@.len()
            &&& forall|i: int|
                0 <= i < elements@.len() ==> same_list_element(
                    #[trigger] elements@[i],
                    others@[i],
                )
        },
        JsonValue::Object { space0, elements } => {
            &&& b matches JsonValue::Object { space0: other_space, elements: others }
            &&& space0 == other_space
            &&& elements@.len() == others@.len()
            &&& forall|i: int|
                0 <= i < elements@.len() ==> same_object_element(
                    #[trigger] elements@[i],
                    others@[i],
                )
        },
        JsonValue::Null => b == JsonValue::Null,
    }
}

/// A value over again is written the same.
pub proof fn lemma_same_json_same_source(a: JsonValue, b: JsonValue)
    requires
        same_json(a, b),
    ensures
        json_source(a) == json_source(b),
    decreases a, 0nat,
{
    match a {
        JsonValue::List { space0, elements } => {
            let others = b->List_elements;
            lemma_same_list_same_source(elements, others, elements@.len());
        },
        JsonValue::Object { space0, elements } => {
            let others = b->Object_elements;
            lemma_same_object_same_source(elements, others, elements@.len());
        },
        _ => {},
    }
}

proof fn lemma_same_list_same_source(
    a: Vec<JsonListElement>,
    b: Vec<JsonListElement>,
    n: nat,
)
    requires
        a@.len() == b@.len(),
        n <= a@.len(),
        forall|i: int| 0 <= i < a@.len() ==> same_list_element(#[trigger] a@[i], b@[i]),
    ensures
        json_list_source(a, n) == json_list_source(b, n),
    decreases a, n,
{
    if n > 0 {
        lemma_same_list_same_source(a, b, (n - 1) as nat);
        assert(same_list_element(a@[n - 1], b@[n - 1]));
        lemma_same_json_same_source(a@[n - 1].value, b@[n - 1].value);
    }
}

proof fn lemma_same_object_same_source(
    a: Vec<JsonObjectElement>,
    b: Vec<JsonObjectElement>,
    n: nat,
)
    requires
        a@.len() == b@.len(),
        n <= a@.len(),
        forall|i: int| 0 <= i < a@.len() ==> same_object_element(#[trigger] a@[i], b@[i]),
    ensures
        json_object_source(a, n) == json_object_source(b, n),
    decreases a, n,
{
    if n > 0 {
        lemma_same_object_same_source(a, b, (n - 1) as nat);
        assert(same_object_element(a@[n - 1], b@[n - 1]));
        lemma_same_json_same_source(a@[n - 1].value, b@[n - 1].value);
    }
}

/// Copies a JSON value. The copy is the value over again, and so is written
/// the same.
fn copy_value(value: &JsonValue) -> (copy: JsonValue)
    ensures
        same_json(*value, copy),
        copy.source() == value.source(),
    decreases *value, 0nat,
{
    let copy = match value {
        JsonValue::Placeholder(p) => JsonValue::Placeholder(p.clone()),
        JsonValue::Number(n) => JsonValue::Number(n.clone()),
        JsonValue::String(t) => JsonValue::String(t.clone()),
        JsonValue::Boolean(b) => JsonValue::Boolean(*b),
        JsonValue::List { space0, elements } => JsonValue::List {
            space0: space0.clone(),
            elements: copy_list(elements),
        },
        JsonValue::Object { space0, elements } => JsonValue::Object {
            space0: space0.clone(),
            elements: copy_object(elements),
        },
        JsonValue::Null => JsonValue::Null,
    };
    proof {
        lemma_same_json_same_source(*value, copy);
    }
    copy
}

/// Copies the items of a JSON list: as many items, in the same order, each
/// the item over again.
fn copy_list(elements: &Vec<JsonListElement>) -> (copy: Vec<JsonListElement>)
    ensures
        copy@.len() == elements@.len(),
        forall|i: int|
            0 <= i < elements@.len() ==> same_list_element(#[trigger] elements@[i], copy@[i]),
    decreases *elements, 1nat,
{
    let mut out: Vec<JsonListElement> = Vec::new();
    let mut i: usize = 0;
    while i < elements.len()
        invariant
            i <= elements@.len(),
            out@.len() == i,
            forall|j: int| 0 <= j < i ==> same_list_element(#[trigger] elements@[j], out@[j]),
        decreases elements@.len() - i,
    {
        out.push(
            JsonListElement {
                space0: elements[i].space0.clone(),
                value: copy_value(&elements[i].value),
                space1: elements[i].space1.clone(),
            },
        );
        i = i + 1;
    }
    out
}

/// Copies the members of a JSON object: as many members, in the same order,
/// each the member over again.
fn copy_object(elements: &Vec<JsonObjectElement>) -> (copy: Vec<JsonObjectElement>)
    ensures
        copy@.len() == elements@.len(),
        forall|i: int|
            0 <= i < elements@.len() ==> same_object_element(#[trigger] elements@[i], copy@[i]),
    decreases *elements, 1nat,
{
    let mut out: Vec<JsonObjectElement> = Vec::new();
    let mut i: usize = 0;
    while i < elements.len()
        invariant
            i <= elements@.len(),
            out@.len() == i,
            forall|j: int| 0 <= j < i ==> same_object_element(#[trigger] elements@[j], out@[j]),
        decreases elements@.len() - i,
    {
        out.push(
            JsonObjectElement {
                space0: elements[i].space0.clone(),
                name: elements[i].name.clone(),
                space1: elements[i].space1.clone(),
                space2: elements[i].space2.clone(),
                value: copy_value(&elements[i].value),
                space3: elements[i].space3.clone(),
            },
        );
        i = i + 1;
    }
    out
}

impl Clone for JsonValue {
    /// A copy of the value: the value over again, written the same.
    fn clone(&self) -> (copy: JsonValue)
        ensures
            same_json(*self, copy),
            copy.source() == self.source(),
    {
        copy_value(self)
    }
}

impl Clone for JsonListElement {
    /// A copy of the item: the item over again.
    fn clone(&self) -> (copy: JsonListElement)
        ensures
            same_list_element(*self, copy),
    {
        JsonListElement {
            space0: self.space0.clone(),
            value: copy_value(&self.value),
            space1: self.space1.clone(),
        }
    }
}

impl Clone for JsonObjectElement {
    /// A copy of the member: the member over again.
    fn clone(&self) -> (copy: JsonObjectElement)
        ensures
            same_object_element(*self, copy),
    {
        JsonObjectElement {
            space0: self.space0.clone(),
            name: self.name.clone(),
            space1: self.space1.clone(),
            space2: self.space2.clone(),
            value: copy_value(&self.value),
            space3: self.space3.clone(),
        }
    }
}

} // verus!
