//! The description of a record and of what is derived from it: the paths of
//! the types that belong to it, and the members of its creation and
//! partial-update forms.

use vstd::prelude::*;
use vstd::string::{StrSliceExecFns, StringExecFns};

verus! {

/// What stands behind the name of an attribute.
#[derive(Clone, Debug, PartialEq, Eq)]
pub enum AttributeValue {
    /// Nothing: the attribute is a bare word.
    Flag,
    /// A string, as in `#[module = "car"]`.
    Text(String),
    /// Anything else.
    Other,
}

/// An attribute of a record or of one of its fields.
#[derive(Clone, Debug, PartialEq, Eq)]
pub struct Attribute {
    pub name: String,
    pub value: AttributeValue,
}

/// A field of the record as it was declared.
#[derive(Clone, Debug, PartialEq, Eq)]
pub struct Field {
    pub name: String,
    pub ty: String,
    pub attrs: Vec<Attribute>,
}

/// The body of the declaration.
#[derive(Clone, Debug, PartialEq, Eq)]
pub enum Data {
    /// A struct with named fields.
    Record(Vec<Field>),
    /// A struct with unnamed fields, or with none.
    Plain,
    /// An enum or a union.
    NotAStruct,
}

/// The declaration that the model family is derived from.
#[derive(Clone, Debug, PartialEq, Eq)]
pub struct DeriveInput {
    pub ident: String,
    pub attrs: Vec<Attribute>,
    pub data: Data,
}

/// A path to a type, one name per segment.
#[derive(Clone, Debug, PartialEq, Eq)]
pub struct TypePath {
    pub segments: Vec<String>,
}

/// Why nothing can be derived from a declaration.
#[derive(Clone, Copy, Debug, PartialEq, Eq)]
pub enum GenerationError {
    /// The declaration has no `#[module = "..."]` attribute.
    ModuleMissing,
    /// The declaration is not a struct with named fields.
    NotARecord,
    /// No field is marked `#[idField]`.
    IdFieldMissing,
}

/// The text of each string of `strings`.
pub open spec fn texts(strings: Seq<String>) -> Seq<Seq<char>> {
    Seq::new(strings.len(), |i: int| strings[i]@)
}

impl TypePath {
    /// The names of the segments.
    pub open spec fn names(&self) -> Seq<Seq<char>> {
        texts(self.segments@)
    }
}

/// Whether `attr` is named `name` and carries a string.
pub open spec fn carries_text(attr: Attribute, name: Seq<char>) -> bool {
    attr.name@ == name && attr.value is Text
}

/// Whether one of `attrs` is named `name`.
pub open spec fn is_marked(attrs: Seq<Attribute>, name: Seq<char>) -> bool {
    exists|i: int| 0 <= i < attrs.len() && (#[trigger] attrs[i]).name@ == name
}

fn text_eq(a: &String, b: &str) -> (same: bool)
    ensures
        same == (a@ == b@),
{
    let other = String::from_str(b);
    *a == other
}

fn has_attribute(attrs: &Vec<Attribute>, name: &str) -> (marked: bool)
    ensures
        marked == is_marked(attrs@, name@),
{
    let mut i: usize = 0;
    while i < attrs.len()
        invariant
            i <= attrs@.len(),
            forall|j: int| 0 <= j < i ==> (#[trigger] attrs@[j]).name@ != name@,
        decreases attrs@.len() - i,
    {
        if text_eq(&attrs[i].name, name) {
            return true;
        }
        i += 1;
    }
    false
}

/// The position of the first field at or after `from` that carries the
/// attribute `name`.
pub open spec fn first_marked(fields: Seq<Field>, name: Seq<char>, from: int) -> Option<int>
    decreases fields.len() - from,
{
    if from < 0 || from >= fields.len() {
        None
    } else if is_marked(fields[from].attrs@, name) {
        Some(from)
    } else {
        first_marked(fields, name, from + 1)
    }
}

/// The string of the first attribute at or after `from` that is named `name`
/// and carries a string.
pub open spec fn attribute_value(attrs: Seq<Attribute>, name: Seq<char>, from: int) -> Option<
    String,
>
    decreases attrs.len() - from,
{
    if from < 0 || from >= attrs.len() {
        None
    } else if carries_text(attrs[from], name) {
        Some(attrs[from].value->Text_0)
    } else {
        attribute_value(attrs, name, from + 1)
    }
}

/// Whether some field carries the attribute `name`.
pub fn has_field_by_name(name: &str, fields: &Vec<Field>) -> (marked: bool)
    ensures
        marked == first_marked(fields@, name@, 0).is_some(),
{
    let mut i: usize = 0;
    while i < fields.len()
        invariant
            i <= fields@.len(),
            first_marked(fields@, name@, 0) == first_marked(fields@, name@, i as int),
        decreases fields@.len() - i,
    {
        if has_attribute(&fields[i].attrs, name) {
            return true;
        }
        i += 1;
    }
    false
}

/// The position of the first field that carries the attribute `name`, among
/// fields of which one does.
pub fn get_field_by_name(name: &str, fields: &Vec<Field>) -> (at: usize)
    requires
        first_marked(fields@, name@, 0).is_some(),
    ensures
        at < fields@.len(),
        first_marked(fields@, name@, 0) == Some(at as int),
{
    let len = fields.len();
    let mut i: usize = 0;
    while !has_attribute(&fields[i].attrs, name)
        invariant
            len == fields@.len(),
            i < len,
            first_marked(fields@, name@, 0) == first_marked(fields@, name@, i as int),
            first_marked(fields@, name@, 0).is_some(),
        decreases fields@.len() - i,
    {
        assert(first_marked(fields@, name@, i as int) == first_marked(fields@, name@, i + 1));
        i += 1;
    }
    i
}

/// The string of the first attribute of the declaration that is named
/// `attr_name` and carries a string.
pub fn get_attribute_value(input: &DeriveInput, attr_name: &str) -> (value: Option<String>)
    ensures
        value == attribute_value(input.attrs@, attr_name@, 0),
{
    let mut i: usize = 0;
    while i < input.attrs.len()
        invariant
            i <= input.attrs@.len(),
            attribute_value(input.attrs@, attr_name@, 0) == attribute_value(
                input.attrs@,
                attr_name@,
                i as int,
            ),
        decreases input.attrs@.len() - i,
    {
        let attr = &input.attrs[i];
        if text_eq(&attr.name, attr_name) {
            match &attr.value {
                AttributeValue::Text(text) => {
                    return Some(text.clone());
                },
                _ => {},
            }
        }
        i += 1;
    }
    None
}

/// Whether `::` stands at position `at` of `path`.
pub open spec fn separator_at(path: Seq<char>, at: int) -> bool {
    0 <= at && at + 1 < path.len() && path[at] == ':' && path[at + 1] == ':'
}

/// The position of the first `::` of `path` at or after `from`, or -1.
pub open spec fn next_separator(path: Seq<char>, from: int) -> int
    decreases path.len() - from,
{
    if from < 0 || from + 1 >= path.len() {
        -1
    } else if separator_at(path, from) {
        from
    } else {
        next_separator(path, from + 1)
    }
}

/// The pieces of `path` from `from` on that lie between its `::`, read from
/// the left.
pub open spec fn split_path(path: Seq<char>, from: int) -> Seq<Seq<char>>
    decreases path.len() - from,
{
    let at = next_separator(path, from);
    if from < 0 || from > path.len() {
        Seq::empty()
    } else if at < from || at + 2 > path.len() {
        seq![path.subrange(from, path.len() as int)]
    } else {
        seq![path.subrange(from, at)] + split_path(path, at + 2)
    }
}

fn find_separator(path: &str, len: usize, from: usize) -> (at: Option<usize>)
    requires
        len == path@.len(),
        from <= len,
    ensures
        match at {
            Some(p) => from <= p && p + 1 < len && next_separator(path@, from as int) == p,
            None => next_separator(path@, from as int) == -1,
        },
{
    let mut p: usize = from;
    while p < len && p + 1 < len
        invariant
            from <= p <= len,
            len == path@.len(),
            next_separator(path@, from as int) == next_separator(path@, p as int),
        decreases len - p,
    {
        if path.get_char(p) == ':' && path.get_char(p + 1) == ':' {
            return Some(p);
        }
        p += 1;
    }
    None
}

/// Splits `path` at each `::` into the segments of a type path.
pub fn build_type_path(path: &str) -> (type_path: TypePath)
    ensures
        type_path.names() == split_path(path@, 0),
{
    let len = path.unicode_len();
    let mut segments: Vec<String> = Vec::new();
    let mut from: usize = 0;
    loop
        invariant_except_break
            split_path(path@, 0) == texts(segments@) + split_path(path@, from as int),
        invariant
            len == path@.len(),
            from <= len,
        ensures
            split_path(path@, 0) == texts(segments@),
        decreases len - from,
    {
        match find_separator(path, len, from) {
            Some(at) => {
                let ghost before = segments@;
                segments.push(String::from_str(path.substring_char(from, at)));
                assert(texts(segments@) =~= texts(before) + seq![
                    path@.subrange(from as int, at as int),
                ]);
                from = at + 2;
            },
            None => {
                let ghost before = segments@;
                segments.push(String::from_str(path.substring_char(from, len)));
                assert(texts(segments@) =~= texts(before) + seq![
                    path@.subrange(from as int, len as int),
                ]);
                break ;
            },
        }
    }
    TypePath { segments }
}

} // verus!
