use vstd::prelude::*;

use crate::location::Location;
use crate::state::StateUpdate;
use crate::value::Value;

verus! {

/// The kind of an element of document content.
#[derive(Debug, Clone, Copy, PartialEq, Eq, Hash, Structural)]
pub enum ElemKind {
    Text,
    Heading,
    Figure,
    Footnote,
    Equation,
    Image,
    Cite,
    Ref,
    Quote,
    Metadata,
    StateUpdate,
    LineMarker,
}

impl ElemKind {
    /// Whether content of this kind shows up in queries. Internal markers
    /// are indexed for position lookups only.
    pub open spec fn queriable_spec(self) -> bool {
        self != ElemKind::LineMarker
    }

    /// Whether content of this kind shows up in queries.
    pub fn queriable(self) -> (r: bool)
        ensures
            r == self.queriable_spec(),
    {
        match self {
            ElemKind::LineMarker => false,
            _ => true,
        }
    }
}

/// A named field of an element, or a style property set on it.
#[derive(Debug, Clone, PartialEq, Eq, Hash)]
pub struct Field {
    pub name: String,
    pub value: Value,
}

impl Field {
    /// A copy of this field.
    pub fn duplicate(&self) -> (r: Field)
        ensures
            r == *self,
    {
        Field { name: self.name.clone(), value: self.value.duplicate() }
    }
}

/// A copy of a list of fields.
pub fn duplicate_fields(v: &Vec<Field>) -> (r: Vec<Field>)
    ensures
        r@ == v@,
{
    let mut r: Vec<Field> = Vec::new();
    let mut i: usize = 0;
    while i < v.len()
        invariant
            i <= v@.len(),
            r@ == v@.subrange(0, i as int),
        decreases v@.len() - i,
    {
        r.push(v[i].duplicate());
        i = i + 1;
        assert(r@ =~= v@.subrange(0, i as int));
    }
    assert(r@ =~= v@);
    r
}

/// Whether a list of fields holds a field of the given name with a value
/// equal to the given one.
pub open spec fn has_field(fields: Seq<Field>, name: Seq<char>, value: Value) -> bool {
    exists|j: int| 0 <= j < fields.len() && #[trigger] fields[j].name@ == name
        && fields[j].value.same_as(value)
}

/// Whether a style property has the given name and value.
pub open spec fn style_is(f: Field, name: Seq<char>, value: Value) -> bool {
    f.name@ == name && f.value == value
}

/// Whether a style property has the given name and a string value with the
/// given characters.
pub open spec fn style_is_str(f: Field, name: Seq<char>, value: Seq<char>) -> bool {
    f.name@ == name && f.value is Str && f.value->Str_0@ == value
}

/// Whether `r` is `c` with `n` more style properties set on it, and
/// otherwise unchanged.
pub open spec fn restyled(r: Content, c: Content, n: nat) -> bool {
    &&& r.kind == c.kind
    &&& r.fields == c.fields
    &&& r.label == c.label
    &&& r.location == c.location
    &&& r.update == c.update
    &&& r.styles@.len() == c.styles@.len() + n
    &&& r.styles@.subrange(0, c.styles@.len() as int) == c.styles@
}

/// A node of document content: an element with its fields, the style
/// properties set on it, an optional label, and the location it received
/// when it was placed.
///
/// An update marker of a deferred value is content of kind
/// `ElemKind::StateUpdate` that carries the update to perform.
#[derive(Debug, Clone, PartialEq, Eq, Hash)]
pub struct Content {
    pub kind: ElemKind,
    pub fields: Vec<Field>,
    pub styles: Vec<Field>,
    pub label: Option<String>,
    pub location: Option<Location>,
    pub update: Option<StateUpdate>,
}

impl Content {
    /// Content of the given kind with no fields, styles, label, location or
    /// update.
    pub fn new(kind: ElemKind) -> (r: Content)
        ensures
            r.kind == kind,
            r.fields@.len() == 0,
            r.styles@.len() == 0,
            r.label.is_none(),
            r.location.is_none(),
            r.update.is_none(),
    {
        Content {
            kind,
            fields: Vec::new(),
            styles: Vec::new(),
            label: None,
            location: None,
            update: None,
        }
    }

    /// Whether two pieces of content agree in every part: the same kind,
    /// fields, styles, label, location and update.
    pub open spec fn same_as(self, other: Content) -> bool {
        &&& self.kind == other.kind
        &&& self.fields@ == other.fields@
        &&& self.styles@ == other.styles@
        &&& self.label == other.label
        &&& self.location == other.location
        &&& self.update == other.update
    }

    /// A copy of this content.
    pub fn duplicate(&self) -> (r: Content)
        ensures
            r.same_as(*self),
    {
        let label = match &self.label {
            Some(l) => Some(l.clone()),
            None => None,
        };
        let update = match &self.update {
            Some(u) => Some(u.duplicate()),
            None => None,
        };
        Content {
            kind: self.kind,
            fields: duplicate_fields(&self.fields),
            styles: duplicate_fields(&self.styles),
            label,
            location: self.location,
            update,
        }
    }

    /// This content with one more field.
    pub fn with_field(self, name: String, value: Value) -> (r: Content)
        ensures
            r.kind == self.kind,
            r.fields@ == self.fields@.push(Field { name, value }),
            r.styles == self.styles,
            r.label == self.label,
            r.location == self.location,
            r.update == self.update,
    {
        let mut c = self;
        c.fields.push(Field { name, value });
        c
    }

    /// This content with a style property set on it.
    pub fn set(self, name: String, value: Value) -> (r: Content)
        ensures
            r.kind == self.kind,
            r.fields == self.fields,
            r.styles@ == self.styles@.push(Field { name, value }),
            r.label == self.label,
            r.location == self.location,
            r.update == self.update,
    {
        let mut c = self;
        c.styles.push(Field { name, value });
        c
    }

    /// This content with a label.
    pub fn labelled(self, label: String) -> (r: Content)
        ensures
            r == (Content { label: Some(label), ..self }),
    {
        Content { label: Some(label), ..self }
    }

    /// This content placed at a location.
    pub fn located(self, location: Location) -> (r: Content)
        ensures
            r == (Content { location: Some(location), ..self }),
    {
        Content { location: Some(location), ..self }
    }

    /// This content carrying an update of a deferred value.
    pub fn with_update(self, update: StateUpdate) -> (r: Content)
        ensures
            r == (Content { update: Some(update), ..self }),
    {
        Content { update: Some(update), ..self }
    }

    /// Whether this content has a field of the given name equal to the
    /// given value.
    pub fn has(&self, name: &String, value: &Value) -> (r: bool)
        ensures
            r == has_field(self.fields@, name@, *value),
    {
        let mut j: usize = 0;
        while j < self.fields.len()
            invariant
                j <= self.fields@.len(),
                forall|k: int|
                    0 <= k < j ==> !(#[trigger] self.fields@[k].name@ == name@
                        && self.fields@[k].value.same_as(*value)),
            decreases self.fields@.len() - j,
        {
            let f = &self.fields[j];
            if f.name.eq(name) && f.value.same(value) {
                return true;
            }
            j = j + 1;
        }
        false
    }
}

} // verus!
