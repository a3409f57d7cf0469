use vstd::prelude::*;

use crate::content::{restyled, style_is, Content, ElemKind};
use crate::introspector::{
    index_of, lemma_select_located, query_seq, visible, Entry, Introspector, QueryError,
};
use crate::location::{Locatable, Location, Tagged};
use crate::selector::Selector;
use crate::value::{Func, Value};

verus! {

/// The name of the field of a footnote that refers to another one.
pub open spec fn reference_field() -> Seq<char> {
    "reference"@
}

/// The body of a footnote: its own content, or the label of another
/// footnote whose number it repeats.
#[derive(Debug, Clone, PartialEq, Eq, Hash)]
pub enum FootnoteBody {
    Content(Content),
    Reference(String),
}

/// A footnote.
#[derive(Debug, Clone, PartialEq, Eq, Hash)]
pub struct FootnoteElem {
    pub body: FootnoteBody,
}

impl Locatable for FootnoteElem {
}

impl Tagged for FootnoteElem {
}

/// The label that a footnote placed as content refers to, if any.
pub open spec fn reference_of(c: Content) -> Option<String> {
    if c.fields@.len() > 0 && c.fields@[0].name@ == reference_field() && c.fields@[0].value is Str {
        Some(c.fields@[0].value->Str_0)
    } else {
        None
    }
}

/// Why the declaration of a footnote could not be found.
#[derive(Debug, Clone, Copy, PartialEq, Eq, Hash, Structural)]
pub enum FootnoteError {
    /// The footnote was not placed, so it has no location.
    Unplaced,
    /// No element carries the referenced label.
    LocationNotFound,
    /// More than one element carries the referenced label.
    AmbiguousMatch,
    /// The referenced element is not a footnote.
    NotAFootnote,
    /// The footnote refers to itself.
    SelfReference,
    /// The references run in a circle.
    Cycle,
}

/// Where the footnote whose number `c` shows is declared, following at most
/// `fuel` references.
pub open spec fn declaration_spec(s: Seq<Entry>, c: Content, fuel: nat) -> Result<Location, FootnoteError>
    decreases fuel,
{
    match reference_of(c) {
        None => match c.location {
            Some(l) => Ok(l),
            None => Err(FootnoteError::Unplaced),
        },
        Some(label) => {
            let q = query_seq(s, Selector::Label(label));
            if q.len() == 0 {
                Err(FootnoteError::LocationNotFound)
            } else if q.len() > 1 {
                Err(FootnoteError::AmbiguousMatch)
            } else if q[0].kind != ElemKind::Footnote {
                Err(FootnoteError::NotAFootnote)
            } else if q[0].location == c.location {
                Err(FootnoteError::SelfReference)
            } else if fuel == 0 {
                Err(FootnoteError::Cycle)
            } else {
                declaration_spec(s, q[0], (fuel - 1) as nat)
            }
        },
    }
}

/// Everything that a query finds in a well-formed index is located.
proof fn lemma_located_matches(introspector: &Introspector, sel: Selector)
    requires
        introspector.wf(),
    ensures
        forall|k: int|
            0 <= k < query_seq(introspector@, sel).len() ==> (#[trigger] query_seq(
                introspector@,
                sel,
            )[k]).location is Some,
{
    lemma_select_located(introspector@, |c: Content| visible(sel, c));
}

/// Content that agrees in every part has the same declaration.
proof fn lemma_declaration_same(s: Seq<Entry>, a: Content, b: Content, fuel: nat)
    requires
        a.same_as(b),
    ensures
        declaration_spec(s, a, fuel) == declaration_spec(s, b, fuel),
{
    assert(reference_of(a) == reference_of(b));
}

impl FootnoteElem {
    /// A footnote with its own content.
    pub fn with_content(body: Content) -> (r: FootnoteElem)
        ensures
            r.body == FootnoteBody::Content(body),
    {
        FootnoteElem { body: FootnoteBody::Content(body) }
    }

    /// A footnote that repeats the number of the labelled one.
    pub fn with_label(label: String) -> (r: FootnoteElem)
        ensures
            r.body == FootnoteBody::Reference(label),
    {
        FootnoteElem { body: FootnoteBody::Reference(label) }
    }

    /// A footnote like this one that refers to the labelled footnote.
    pub fn into_ref(&self, label: String) -> (r: FootnoteElem)
        ensures
            r.body == FootnoteBody::Reference(label),
    {
        FootnoteElem { body: FootnoteBody::Reference(label) }
    }

    /// The content of this footnote's body, if it is not a reference.
    pub fn body_content(&self) -> (r: Option<Content>)
        ensures
            match self.body {
                FootnoteBody::Content(c) => r is Some && r->0.same_as(c),
                FootnoteBody::Reference(_) => r is None,
            },
    {
        match &self.body {
            FootnoteBody::Content(c) => Some(c.duplicate()),
            FootnoteBody::Reference(_) => None,
        }
    }

    /// Whether this footnote refers to another one.
    pub fn is_ref(&self) -> (r: bool)
        ensures
            r == self.body is Reference,
    {
        match self.body {
            FootnoteBody::Reference(_) => true,
            FootnoteBody::Content(_) => false,
        }
    }

    /// The footnote as content, ready to be placed. A reference is kept as
    /// its first field.
    pub fn pack(self) -> (r: Content)
        ensures
            r.kind == ElemKind::Footnote,
            r.location is None,
            match self.body {
                FootnoteBody::Reference(l) => reference_of(r) == Some(l),
                FootnoteBody::Content(_) => reference_of(r) is None,
            },
    {
        let c = Content::new(ElemKind::Footnote);
        match self.body {
            FootnoteBody::Reference(l) => {
                let r = c.with_field("reference".to_owned(), Value::Str(l));
                assert(r.fields@[0].name@ == reference_field());
                r
            },
            FootnoteBody::Content(_) => c,
        }
    }
}

/// The label that a footnote placed as content refers to, if any.
fn reference(c: &Content) -> (r: Option<String>)
    ensures
        r == reference_of(*c),
{
    if c.fields.len() > 0 {
        let f = &c.fields[0];
        let is_ref = string_is(&f.name, "reference");
        if is_ref {
            match &f.value {
                Value::Str(s) => {
                    return Some(s.clone());
                },
                _ => {},
            }
        }
    }
    None
}

/// Whether a string holds the given text.
fn string_is(s: &String, text: &str) -> (r: bool)
    ensures
        r == (s@ == text@),
{
    let t = text.to_owned();
    (*s).eq(&t)
}

/// Where the footnote whose number the placed footnote `note` shows is
/// declared: its own location, or, for a reference, the declaration of the
/// labelled footnote.
pub fn declaration_location(note: &Content, introspector: &Introspector) -> (r: Result<Location, FootnoteError>)
    ensures
        r == declaration_spec(introspector@, *note, introspector@.len() as nat),
{
    let mut cur = note.duplicate();
    let mut fuel: usize = introspector.len();
    loop
        invariant
            fuel <= introspector@.len(),
            declaration_spec(introspector@, cur, fuel as nat) == declaration_spec(
                introspector@,
                *note,
                introspector@.len() as nat,
            ),
        decreases fuel,
    {
        match reference(&cur) {
            None => {
                return match cur.location {
                    Some(l) => Ok(l),
                    None => Err(FootnoteError::Unplaced),
                };
            },
            Some(label) => {
                let found = introspector.query_label(&label);
                match found {
                    Err(QueryError::LocationNotFound) => {
                        return Err(FootnoteError::LocationNotFound);
                    },
                    Err(QueryError::AmbiguousMatch) => {
                        return Err(FootnoteError::AmbiguousMatch);
                    },
                    Ok(elem) => {
                        if elem.kind != ElemKind::Footnote {
                            return Err(FootnoteError::NotAFootnote);
                        }
                        let same = match (elem.location, cur.location) {
                            (Some(a), Some(b)) => a.0 == b.0,
                            (None, None) => true,
                            _ => false,
                        };
                        if same {
                            return Err(FootnoteError::SelfReference);
                        }
                        if fuel == 0 {
                            return Err(FootnoteError::Cycle);
                        }
                        proof {
                            let q = query_seq(introspector@, Selector::Label(label));
                            lemma_declaration_same(introspector@, elem, q[0], (fuel - 1) as nat);
                        }
                        cur = elem;
                        fuel = fuel - 1;
                    },
                }
            },
        }
    }
}

/// Additional content for a reference: fixed, or computed by a user
/// function.
#[derive(Debug, Clone, PartialEq, Eq, Hash)]
pub enum Supplement {
    Content(Content),
    Func(Func),
}

impl Supplement {
    /// The supplement's content. A user function is called through `call`
    /// with the arguments.
    pub fn resolve<E, G: Fn(Func, Vec<Value>) -> Result<Content, E>>(
        &self,
        call: &G,
        args: Vec<Value>,
    ) -> (r: Result<Content, E>)
        requires
            forall|f: Func, a: Vec<Value>| call_requires(*call, (f, a)),
        ensures
            match *self {
                Supplement::Content(c) => r is Ok && r->Ok_0.same_as(c),
                Supplement::Func(f) => call_ensures(*call, (f, args), r),
            },
    {
        match self {
            Supplement::Content(c) => Ok(c.duplicate()),
            Supplement::Func(f) => call(*f, args),
        }
    }
}

/// The form of a reference.
#[derive(Debug, Clone, Copy, PartialEq, Eq, Hash, Structural, Default)]
pub enum RefForm {
    /// A textual reference to the label.
    #[default]
    Normal,
    /// A reference to the page of the label.
    Page,
}

/// A reference to a label or a bibliography entry.
#[derive(Debug, Clone, PartialEq, Eq, Hash)]
pub struct RefElem {
    pub target: String,
    pub supplement: Option<Supplement>,
    pub form: RefForm,
}

/// What a reference turns into.
#[derive(Debug, Clone, PartialEq, Eq, Hash)]
pub enum RefResolution {
    /// The page of the labelled element, shown with the page numbering in
    /// effect there.
    Page { location: Location, numbering: String },
    /// A citation of the bibliography entry with the label's key.
    Citation,
    /// The number of the labelled footnote, repeated.
    Footnote { location: Location },
    /// The number of the labelled element, shown with its counter.
    Element { location: Location, kind: ElemKind },
}

/// Why a reference cannot be shown.
#[derive(Debug, Clone, Copy, PartialEq, Eq, Hash, Structural)]
pub enum RefError {
    /// No element carries the label.
    LocationNotFound,
    /// More than one element carries the label.
    AmbiguousMatch,
    /// The page of the element has no numbering.
    NoPageNumbering,
    /// The label names both an element and a bibliography entry.
    InBibliographyToo,
    /// The element is numbered only when put into a figure.
    NeedsFigure,
    /// Elements of this kind cannot be referenced.
    NotReferable,
    /// The element has no numbering.
    NoNumbering,
}

/// Whether elements of the kind can be referenced by their number.
pub open spec fn referable(kind: ElemKind) -> bool {
    kind == ElemKind::Heading || kind == ElemKind::Figure || kind == ElemKind::Equation
}

/// Whether elements of the kind can be shown in a figure.
pub open spec fn figurable(kind: ElemKind) -> bool {
    kind == ElemKind::Image || kind == ElemKind::Text
}

/// Whether content has a numbering pattern.
pub open spec fn numbered(c: Content) -> bool {
    exists|j: int|
        0 <= j < c.fields@.len() && #[trigger] c.fields@[j].name@ == "numbering"@
            && c.fields@[j].value is Str
}

/// What the reference resolves to, against an index in which every entry
/// is located.
pub open spec fn reference_spec(
    s: Seq<Entry>,
    target: String,
    form: RefForm,
    in_bibliography: bool,
    r: Result<RefResolution, RefError>,
) -> bool {
    let q = query_seq(s, Selector::Label(target));
    let found: Result<Content, RefError> = if q.len() == 0 {
        Err(RefError::LocationNotFound)
    } else if q.len() > 1 {
        Err(RefError::AmbiguousMatch)
    } else {
        Ok(q[0])
    };
    if form == RefForm::Page {
        match found {
            Err(e) => r == Err::<RefResolution, RefError>(e),
            Ok(c) => match index_of(s, c.location->0) {
                Some(i) => match s[i].numbering {
                    Some(n) => r == Ok::<RefResolution, RefError>(
                        RefResolution::Page { location: c.location->0, numbering: n },
                    ),
                    None => r == Err::<RefResolution, RefError>(RefError::NoPageNumbering),
                },
                None => r == Err::<RefResolution, RefError>(RefError::NoPageNumbering),
            },
        }
    } else if in_bibliography {
        if found is Ok {
            r == Err::<RefResolution, RefError>(RefError::InBibliographyToo)
        } else {
            r == Ok::<RefResolution, RefError>(RefResolution::Citation)
        }
    } else {
        match found {
            Err(e) => r == Err::<RefResolution, RefError>(e),
            Ok(c) => if c.kind == ElemKind::Footnote {
                r == Ok::<RefResolution, RefError>(RefResolution::Footnote { location: c.location->0 })
            } else if referable(c.kind) {
                if numbered(c) {
                    r == Ok::<RefResolution, RefError>(
                        RefResolution::Element { location: c.location->0, kind: c.kind },
                    )
                } else {
                    r == Err::<RefResolution, RefError>(RefError::NoNumbering)
                }
            } else if figurable(c.kind) {
                r == Err::<RefResolution, RefError>(RefError::NeedsFigure)
            } else {
                r == Err::<RefResolution, RefError>(RefError::NotReferable)
            },
        }
    }
}

/// Whether content has a numbering pattern.
fn has_numbering(c: &Content) -> (r: bool)
    ensures
        r == numbered(*c),
{
    let mut j: usize = 0;
    while j < c.fields.len()
        invariant
            j <= c.fields@.len(),
            forall|k: int|
                0 <= k < j ==> !(#[trigger] c.fields@[k].name@ == "numbering"@
                    && c.fields@[k].value is Str),
        decreases c.fields@.len() - j,
    {
        let f = &c.fields[j];
        if string_is(&f.name, "numbering") {
            if let Value::Str(_) = &f.value {
                return true;
            }
        }
        j = j + 1;
    }
    false
}

impl RefElem {
    /// Decides what the reference shows: the page of the labelled element,
    /// a citation where the label is a bibliography key, the repeated
    /// number of a footnote, or the number of the element.
    pub fn resolve(&self, introspector: &Introspector, in_bibliography: bool) -> (r: Result<RefResolution, RefError>)
        requires
            introspector.wf(),
        ensures
            reference_spec(introspector@, self.target, self.form, in_bibliography, r),
    {
        let found = introspector.query_label(&self.target);
        proof {
            lemma_located_matches(introspector, Selector::Label(self.target));
        }
        if self.form == RefForm::Page {
            let elem = match found {
                Err(QueryError::LocationNotFound) => {
                    return Err(RefError::LocationNotFound);
                },
                Err(QueryError::AmbiguousMatch) => {
                    return Err(RefError::AmbiguousMatch);
                },
                Ok(c) => c,
            };
            let loc = match elem.location {
                Some(l) => l,
                None => {
                    return Err(RefError::LocationNotFound);
                },
            };
            return match introspector.page_numbering(loc) {
                Some(numbering) => Ok(RefResolution::Page { location: loc, numbering }),
                None => Err(RefError::NoPageNumbering),
            };
        }
        if in_bibliography {
            return match found {
                Ok(_) => Err(RefError::InBibliographyToo),
                Err(_) => Ok(RefResolution::Citation),
            };
        }
        let elem = match found {
            Err(QueryError::LocationNotFound) => {
                return Err(RefError::LocationNotFound);
            },
            Err(QueryError::AmbiguousMatch) => {
                return Err(RefError::AmbiguousMatch);
            },
            Ok(c) => c,
        };
        let loc = match elem.location {
            Some(l) => l,
            None => {
                return Err(RefError::LocationNotFound);
            },
        };
        match elem.kind {
            ElemKind::Footnote => Ok(RefResolution::Footnote { location: loc }),
            ElemKind::Heading | ElemKind::Figure | ElemKind::Equation => {
                if has_numbering(&elem) {
                    Ok(RefResolution::Element { location: loc, kind: elem.kind })
                } else {
                    Err(RefError::NoNumbering)
                }
            },
            ElemKind::Image | ElemKind::Text => Err(RefError::NeedsFigure),
            _ => Err(RefError::NotReferable),
        }
    }
}

/// The form of a citation.
#[derive(Debug, Clone, Copy, PartialEq, Eq, Hash, Structural, Default)]
pub enum CitationForm {
    /// As the citation style prescribes.
    #[default]
    Normal,
    /// For use in prose.
    Prose,
    /// The full bibliographic entry.
    Full,
    /// The authors only.
    Author,
    /// The year only.
    Year,
}

/// A citation of a bibliography entry.
#[derive(Debug, Clone, PartialEq, Eq, Hash)]
pub struct CiteElem {
    pub key: String,
    pub supplement: Option<Content>,
    pub form: Option<CitationForm>,
}

/// Citations that are formatted together.
#[derive(Debug, Clone, PartialEq, Eq, Hash)]
pub struct CiteGroup {
    pub children: Vec<CiteElem>,
}

/// Arbitrary metadata, exposed to queries without being shown.
#[derive(Debug, Clone, PartialEq, Eq, Hash)]
pub struct MetadataElem {
    pub value: Value,
}

impl Locatable for MetadataElem {
}

impl MetadataElem {
    /// The metadata as content, its value in the field `value`.
    pub fn pack(self) -> (r: Content)
        ensures
            r.kind == ElemKind::Metadata,
            r.fields@.len() == 1,
            r.fields@[0].name@ == "value"@,
            r.fields@[0].value == self.value,
            r.location is None,
    {
        Content::new(ElemKind::Metadata).with_field("value".to_owned(), self.value)
    }
}

/// Emphasized text.
#[derive(Debug, Clone, PartialEq, Eq, Hash)]
pub struct EmphElem {
    pub body: Content,
}

/// Strongly emphasized text, `delta` the added font weight.
#[derive(Debug, Clone, PartialEq, Eq, Hash)]
pub struct StrongElem {
    pub delta: i64,
    pub body: Content,
}

/// An item of a numbered list, with an explicit number if it has one.
#[derive(Debug, Clone, PartialEq, Eq, Hash)]
pub struct EnumItem {
    pub number: Option<u64>,
    pub body: Content,
}

/// The quotation marks of the text's language.
#[derive(Debug, Clone, PartialEq, Eq, Hash)]
pub struct SmartQuotes {
    pub single_open: String,
    pub single_close: String,
    pub double_open: String,
    pub double_close: String,
}

impl SmartQuotes {
    /// The opening mark, double or single.
    pub fn open(&self, double: bool) -> (r: String)
        ensures
            r == if double {
                self.double_open
            } else {
                self.single_open
            },
    {
        if double {
            self.double_open.clone()
        } else {
            self.single_open.clone()
        }
    }

    /// The closing mark, double or single.
    pub fn close(&self, double: bool) -> (r: String)
        ensures
            r == if double {
                self.double_close
            } else {
                self.single_close
            },
    {
        if double {
            self.double_close.clone()
        } else {
            self.single_close.clone()
        }
    }
}

/// Whether `c` is a piece of text with the given characters.
pub open spec fn is_text(c: Content, text: String) -> bool {
    &&& c.kind == ElemKind::Text
    &&& c.fields@.len() == 1
    &&& c.fields@[0].name@ == "text"@
    &&& c.fields@[0].value == Value::Str(text)
}

/// Whether `r` is `c` with the quote depth raised by one.
pub open spec fn one_level_deeper(r: Content, c: Content) -> bool {
    restyled(r, c, 1) && style_is(r.styles@.last(), "depth"@, Value::Int(1))
}

/// A piece of text.
fn text_elem(text: String) -> (r: Content)
    ensures
        is_text(r, text),
        r.styles@.len() == 0,
{
    Content::new(ElemKind::Text).with_field("text".to_owned(), Value::Str(text))
}

/// Raises the quote depth of the content by one.
fn deeper(c: Content) -> (r: Content)
    ensures
        one_level_deeper(r, c),
{
    let ghost n = c.styles@.len();
    let r = c.set("depth".to_owned(), Value::Int(1));
    assert(r.styles@.subrange(0, n as int) =~= c.styles@);
    r
}

/// Who said a quote: content, or the label of a bibliography entry.
#[derive(Debug, Clone, PartialEq, Eq, Hash)]
pub enum Attribution {
    Content(Content),
    Label(String),
}

/// A quote.
#[derive(Debug, Clone, PartialEq, Eq, Hash)]
pub struct QuoteElem {
    pub block: bool,
    pub quotes: Option<bool>,
    pub attribution: Option<Attribution>,
    pub body: Content,
}

impl QuoteElem {
    /// The body between quotation marks, one level deeper: double marks at
    /// even nesting depths, single ones at odd depths.
    pub fn quoted(body: Content, depth: usize, quotes: &SmartQuotes) -> (r: Vec<Content>)
        ensures
            r@.len() == 3,
            ({
                let double = depth % 2 == 0;
                &&& exists|t: Content|
                    one_level_deeper(r@[0], t) && is_text(
                        t,
                        if double {
                            quotes.double_open
                        } else {
                            quotes.single_open
                        },
                    )
                &&& one_level_deeper(r@[1], body)
                &&& exists|t: Content|
                    one_level_deeper(r@[2], t) && is_text(
                        t,
                        if double {
                            quotes.double_close
                        } else {
                            quotes.single_close
                        },
                    )
            }),
    {
        let double = depth % 2 == 0;
        let open = text_elem(quotes.open(double));
        let close = text_elem(quotes.close(double));
        let ghost (o, c) = (open, close);
        let mut r: Vec<Content> = Vec::new();
        r.push(deeper(open));
        r.push(deeper(body));
        r.push(deeper(close));
        assert(one_level_deeper(r@[0], o));
        assert(one_level_deeper(r@[2], c));
        r
    }
}

/// A reference turned into a citation of the same key, keeping a fixed
/// supplement.
pub fn to_citation(reference: &RefElem) -> (r: CiteElem)
    ensures
        r.key == reference.target,
        r.form is None,
        match reference.supplement {
            Some(Supplement::Content(c)) => r.supplement is Some && r.supplement->0.same_as(c),
            _ => r.supplement is None,
        },
{
    let supplement = match &reference.supplement {
        Some(Supplement::Content(c)) => Some(c.duplicate()),
        _ => None,
    };
    CiteElem { key: reference.target.clone(), supplement, form: None }
}

/// Where the link of a placed footnote leads: a variant of the location of
/// its declaration.
pub fn footnote_destination(note: &Content, introspector: &Introspector) -> (r: Result<Location, FootnoteError>)
    ensures
        r == match declaration_spec(introspector@, *note, introspector@.len() as nat) {
            Ok(l) => Ok::<Location, FootnoteError>(l.variant_spec(1)),
            Err(e) => Err(e),
        },
{
    match declaration_location(note, introspector) {
        Ok(l) => Ok(l.variant(1)),
        Err(e) => Err(e),
    }
}

/// How a paragraph breaks into lines.
#[derive(Debug, Clone, Copy, PartialEq, Eq, Hash, Structural)]
pub enum Linebreaks {
    /// Line by line, as soon as a line is full.
    Simple,
    /// Over the whole paragraph, for the best overall result.
    Optimized,
}

/// The indent of the first line of paragraphs, in layout units, and
/// whether it also applies after headings and the like.
#[derive(Debug, Clone, Copy, PartialEq, Eq, Hash, Structural, Default)]
pub struct FirstLineIndent {
    pub amount: i64,
    pub all: bool,
}

/// A paragraph.
#[derive(Debug, Clone, PartialEq, Eq, Hash)]
pub struct ParElem {
    pub justify: bool,
    pub linebreaks: Option<Linebreaks>,
    pub first_line_indent: FirstLineIndent,
    pub body: Content,
}

/// A paragraph break.
#[derive(Debug, Clone, Copy, PartialEq, Eq, Hash, Structural, Default)]
pub struct ParbreakElem {}

/// Where line numbers restart.
#[derive(Debug, Clone, Copy, PartialEq, Eq, Hash, Structural)]
pub enum LineNumberingScope {
    /// Lines are numbered through the whole document.
    Document,
    /// Lines are numbered anew on each page.
    Page,
}

/// A marker for a superscript footnote number.
#[derive(Debug, Clone, Copy, PartialEq, Eq, Hash, Structural, Default)]
pub struct FootnoteMarker {}

/// Elements that can be shown in a figure.
pub trait Figurable {
}

} // verus!
