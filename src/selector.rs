use vstd::prelude::*;

use crate::content::{has_field, Content, ElemKind, Field};
use crate::location::Location;

verus! {

/// A predicate on content, used to query the introspector.
#[derive(Debug, PartialEq, Eq, Hash)]
pub enum Selector {
    /// Content of a kind whose fields include the given ones.
    Elem(ElemKind, Vec<Field>),
    /// Content with the given label.
    Label(String),
    /// Content placed at the given location.
    Location(Location),
    /// Content that both selectors match.
    And(Box<Selector>, Box<Selector>),
    /// Content that at least one of the selectors matches.
    Or(Box<Selector>, Box<Selector>),
    /// Content that the selector does not match.
    Not(Box<Selector>),
}

/// Whether content has all of the given fields.
pub open spec fn has_all_fields(c: Content, fields: Seq<Field>) -> bool {
    forall|i: int|
        0 <= i < fields.len() ==> has_field(c.fields@, #[trigger] fields[i].name@, fields[i].value)
}

impl Selector {
    /// Whether this selector matches the content.
    pub open spec fn matches_spec(self, c: Content) -> bool
        decreases self,
    {
        match self {
            Selector::Elem(kind, fields) => c.kind == kind && has_all_fields(c, fields@),
            Selector::Label(l) => match c.label {
                Some(cl) => cl@ == l@,
                None => false,
            },
            Selector::Location(loc) => c.location == Some(loc),
            Selector::And(a, b) => a.matches_spec(c) && b.matches_spec(c),
            Selector::Or(a, b) => a.matches_spec(c) || b.matches_spec(c),
            Selector::Not(a) => !a.matches_spec(c),
        }
    }

    /// Whether this selector matches the content.
    pub fn matches(&self, c: &Content) -> (r: bool)
        ensures
            r == self.matches_spec(*c),
        decreases self,
    {
        match self {
            Selector::Elem(kind, fields) => {
                if c.kind != *kind {
                    return false;
                }
                let mut i: usize = 0;
                while i < fields.len()
                    invariant
                        i <= fields@.len(),
                        c.kind == *kind,
                        *self == Selector::Elem(*kind, *fields),
                        forall|k: int|
                            0 <= k < i ==> has_field(
                                c.fields@,
                                #[trigger] fields@[k].name@,
                                fields@[k].value,
                            ),
                    decreases fields@.len() - i,
                {
                    if !c.has(&fields[i].name, &fields[i].value) {
                        assert(!has_field(c.fields@, fields@[i as int].name@, fields@[i as int].value));
                        return false;
                    }
                    i = i + 1;
                }
                true
            },
            Selector::Label(l) => match &c.label {
                Some(cl) => (*cl).eq(l),
                None => false,
            },
            Selector::Location(loc) => match c.location {
                Some(cl) => cl.0 == loc.0,
                None => false,
            },
            Selector::And(a, b) => a.matches(c) && b.matches(c),
            Selector::Or(a, b) => a.matches(c) || b.matches(c),
            Selector::Not(a) => !a.matches(c),
        }
    }

    /// Selects content of a kind, whatever its fields.
    pub fn kind(kind: ElemKind) -> (r: Selector)
        ensures
            r is Elem,
            r->Elem_0 == kind,
            r->Elem_1@.len() == 0,
    {
        Selector::Elem(kind, Vec::new())
    }

    /// Selects content of a kind whose field `name` equals `value`.
    pub fn kind_where(kind: ElemKind, name: String, value: crate::value::Value) -> (r: Selector)
        ensures
            r is Elem,
            r->Elem_0 == kind,
            r->Elem_1@ == seq![Field { name, value }],
    {
        let mut fields: Vec<Field> = Vec::new();
        fields.push(Field { name, value });
        Selector::Elem(kind, fields)
    }

    /// Selects content that both selectors match.
    pub fn and(self, other: Selector) -> (r: Selector)
        ensures
            r == Selector::And(Box::new(self), Box::new(other)),
    {
        Selector::And(Box::new(self), Box::new(other))
    }

    /// Selects content that either selector matches.
    pub fn or(self, other: Selector) -> (r: Selector)
        ensures
            r == Selector::Or(Box::new(self), Box::new(other)),
    {
        Selector::Or(Box::new(self), Box::new(other))
    }

    /// Selects content that this selector does not match.
    pub fn negate(self) -> (r: Selector)
        ensures
            r == Selector::Not(Box::new(self)),
    {
        Selector::Not(Box::new(self))
    }
}

} // verus!
