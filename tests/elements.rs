use typst_introspect::content::{Content, ElemKind, Field};
use typst_introspect::counter::Counter;
use typst_introspect::grid::{Celled, ResolvedCelled};
use typst_introspect::introspector::{Entry, Introspector, Position};
use typst_introspect::loading::{Delimiter, DelimiterError};
use typst_introspect::location::Location;
use typst_introspect::math::{bold, display, italic, script, sscript, upright, MathSize};
use typst_introspect::model::{
    declaration_location, footnote_destination, to_citation, FootnoteElem, FootnoteError,
    MetadataElem, QuoteElem, RefElem, RefError, RefForm, RefResolution, SmartQuotes, Supplement,
};
use typst_introspect::numbering::NumberingKind;
use typst_introspect::text::ScriptKind;
use typst_introspect::value::{Func, Value};
use typst_introspect::visualize::{LineCap, LineJoin};

fn style(name: &str, value: Value) -> Field {
    Field { name: name.to_string(), value }
}

#[test]
fn numbering_kinds_round_trip_through_their_characters() {
    assert_eq!(NumberingKind::from_char('1'), Some(NumberingKind::Arabic));
    assert_eq!(NumberingKind::from_char('I'), Some(NumberingKind::UpperRoman));
    assert_eq!(NumberingKind::from_char('\u{4E00}'), Some(NumberingKind::LowerSimplifiedChinese));
    assert_eq!(NumberingKind::from_char('\u{24F5}'), Some(NumberingKind::DoubleCircledNumber));
    assert_eq!(NumberingKind::from_char('x'), None);
    assert_eq!(NumberingKind::UpperGreek.to_char(), '\u{0391}');
    assert_eq!(NumberingKind::UpperTraditionalChinese.to_char(), '\u{58F9}');
    for c in ['1', 'a', 'A', 'i', 'I', '*', '\u{05D0}', '\u{3042}', '\u{AC00}', '\u{09E7}', '\u{2460}'] {
        assert_eq!(NumberingKind::from_char(c).unwrap().to_char(), c);
    }
}

#[test]
fn math_styles_are_set_on_the_body() {
    let body = Content::new(ElemKind::Equation);
    assert_eq!(bold(body.clone()).styles, vec![style("bold", Value::Bool(true))]);
    assert_eq!(upright(body.clone()).styles, vec![style("italic", Value::Bool(false))]);
    assert_eq!(italic(body.clone()).styles, vec![style("italic", Value::Bool(true))]);
    assert_eq!(
        display(body.clone(), false).styles,
        vec![style("size", Value::Str("display".to_string())), style("cramped", Value::Bool(false))]
    );
    assert_eq!(typst_introspect::math::inline(body.clone(), true).styles[0], style("size", Value::Str("text".to_string())));
    assert_eq!(script(body.clone(), true).styles[0], style("size", Value::Str("script".to_string())));
    let s = sscript(bold(body.clone()), true);
    assert_eq!(s.styles.len(), 3);
    assert_eq!(s.styles[1], style("size", Value::Str("script-script".to_string())));
    assert_eq!(s.styles[2], style("cramped", Value::Bool(true)));
    assert_eq!(s.kind, ElemKind::Equation);
    assert!(MathSize::ScriptScript < MathSize::Display);
    assert_eq!(MathSize::Text.name(), "text");
}

fn cell_call(f: Func, x: usize, y: usize) -> Result<u32, String> {
    if f.id == 0 {
        Err("failed".to_string())
    } else {
        Ok((x * 10 + y) as u32)
    }
}

#[test]
fn celled_values_resolve_per_cell() {
    assert_eq!(Celled::Value(4u32).resolve(&cell_call, 3, 5), Ok(4));
    assert_eq!(Celled::<u32>::Func(Func::new(1)).resolve(&cell_call, 3, 5), Ok(35));
    assert_eq!(Celled::<u32>::Func(Func::new(0)).resolve(&cell_call, 3, 5), Err("failed".to_string()));
    let cols = Celled::Array(vec![1u32, 2, 3]);
    assert_eq!(cols.resolve(&cell_call, 0, 9), Ok(1));
    assert_eq!(cols.resolve(&cell_call, 4, 9), Ok(2));
    assert_eq!(Celled::<u32>::Array(vec![]).resolve(&cell_call, 4, 9), Ok(0));
    assert_eq!(ResolvedCelled(Celled::Array(vec![7u32, 8])).resolve(&cell_call, 5, 0), Ok(8));
}

fn footnotes() -> Introspector {
    let placed = |c: Content, loc: u128| Entry {
        content: c.located(Location::new(loc)),
        position: Position { page: 1, x: 0, y: loc as i64 },
        numbering: None,
    };
    let own = FootnoteElem::with_content(Content::new(ElemKind::Text)).pack().labelled("fn".to_string());
    let again = FootnoteElem::with_label("fn".to_string()).pack().labelled("again".to_string());
    let third = FootnoteElem::with_label("again".to_string()).pack();
    let selfish = FootnoteElem::with_label("me".to_string()).pack().labelled("me".to_string());
    let wrong = FootnoteElem::with_label("head".to_string()).pack();
    let loop_a = FootnoteElem::with_label("b".to_string()).pack().labelled("a".to_string());
    let loop_b = FootnoteElem::with_label("a".to_string()).pack().labelled("b".to_string());
    let head = Content::new(ElemKind::Heading).labelled("head".to_string());
    Introspector::new(
        vec![
            placed(own, 1),
            placed(again, 2),
            placed(third, 3),
            placed(selfish, 4),
            placed(wrong, 5),
            placed(head, 6),
            placed(loop_a, 7),
            placed(loop_b, 8),
        ],
        1,
    )
}

#[test]
fn footnote_references_lead_to_the_declaration() {
    let intro = footnotes();
    let all = intro.query(&typst_introspect::selector::Selector::kind(ElemKind::Footnote));
    assert_eq!(all.len(), 7);
    assert_eq!(declaration_location(&all[0], &intro), Ok(Location::new(1)));
    assert_eq!(declaration_location(&all[1], &intro), Ok(Location::new(1)));
    assert_eq!(declaration_location(&all[2], &intro), Ok(Location::new(1)));
    assert_eq!(declaration_location(&all[3], &intro), Err(FootnoteError::SelfReference));
    assert_eq!(declaration_location(&all[4], &intro), Err(FootnoteError::NotAFootnote));
    assert_eq!(declaration_location(&all[5], &intro), Err(FootnoteError::Cycle));
    let missing = FootnoteElem::with_label("nowhere".to_string()).pack().located(Location::new(99));
    assert_eq!(declaration_location(&missing, &intro), Err(FootnoteError::LocationNotFound));
    let unplaced = FootnoteElem::with_content(Content::new(ElemKind::Text)).pack();
    assert_eq!(declaration_location(&unplaced, &intro), Err(FootnoteError::Unplaced));
    assert_eq!(footnote_destination(&all[1], &intro), Ok(Location::new(1).variant(1)));
    assert!(FootnoteElem::with_label("x".to_string()).is_ref());
    let body = Content::new(ElemKind::Text).labelled("b".to_string());
    let own = FootnoteElem::with_content(body.clone());
    assert_eq!(own.body_content(), Some(body));
    let as_ref = own.into_ref("fn".to_string());
    assert!(as_ref.is_ref());
    assert_eq!(as_ref.body_content(), None);
}

#[test]
fn quotes_alternate_with_depth() {
    let quotes = SmartQuotes {
        single_open: "\u{2018}".to_string(),
        single_close: "\u{2019}".to_string(),
        double_open: "\u{201C}".to_string(),
        double_close: "\u{201D}".to_string(),
    };
    let body = Content::new(ElemKind::Text).with_field("text".to_string(), Value::Str("hi".to_string()));
    let outer = QuoteElem::quoted(body.clone(), 0, &quotes);
    assert_eq!(outer.len(), 3);
    assert_eq!(outer[0].fields[0].value, Value::Str("\u{201C}".to_string()));
    assert_eq!(outer[2].fields[0].value, Value::Str("\u{201D}".to_string()));
    assert_eq!(outer[1].fields, body.fields);
    assert_eq!(outer[1].styles, vec![style("depth", Value::Int(1))]);
    let inner = QuoteElem::quoted(body, 1, &quotes);
    assert_eq!(inner[0].fields[0].value, Value::Str("\u{2018}".to_string()));
    assert_eq!(inner[2].fields[0].value, Value::Str("\u{2019}".to_string()));
}

fn supplement_call(f: Func, args: Vec<Value>) -> Result<Content, ()> {
    Ok(Content::new(ElemKind::Text).with_field("n".to_string(), Value::Int(f.id as i64 + args.len() as i64)))
}

#[test]
fn supplements_and_citations() {
    let fixed = Content::new(ElemKind::Text).labelled("s".to_string());
    let s = Supplement::Content(fixed.clone());
    assert_eq!(s.resolve(&supplement_call, vec![]), Ok(fixed.clone()));
    let f = Supplement::Func(Func::new(3));
    let r = f.resolve(&supplement_call, vec![Value::Int(1), Value::Int(2)]).unwrap();
    assert_eq!(r.fields[0].value, Value::Int(5));
    let reference = RefElem { target: "smith".to_string(), supplement: Some(s), form: RefForm::Normal };
    let cite = to_citation(&reference);
    assert_eq!(cite.key, "smith");
    assert_eq!(cite.supplement, Some(fixed));
    assert_eq!(cite.form, None);
    let by_func = RefElem { target: "doe".to_string(), supplement: Some(f), form: RefForm::Page };
    assert_eq!(to_citation(&by_func).supplement, None);
}

#[test]
fn metadata_and_counters() {
    let m = MetadataElem { value: Value::Int(42) }.pack();
    assert_eq!(m.kind, ElemKind::Metadata);
    assert_eq!(m.fields, vec![style("value", Value::Int(42))]);
    let at = |c: Content, loc: u128| Entry {
        content: c.located(Location::new(loc)),
        position: Position { page: 1, x: 0, y: 0 },
        numbering: None,
    };
    let intro = Introspector::new(
        vec![
            at(Content::new(ElemKind::Heading), 1),
            at(Content::new(ElemKind::Text), 2),
            at(Content::new(ElemKind::Heading), 3),
            at(Content::new(ElemKind::Text), 4),
        ],
        1,
    );
    let headings = Counter::of(ElemKind::Heading);
    assert_eq!(headings.at_loc(&intro, Location::new(1)), 0);
    assert_eq!(headings.at_loc(&intro, Location::new(2)), 1);
    assert_eq!(headings.at_loc(&intro, Location::new(4)), 2);
    assert_eq!(headings.final_(&intro), 2);
    assert_eq!(Counter::of(ElemKind::LineMarker).final_(&intro), 0);
}

#[test]
fn delimiters_must_be_ascii() {
    assert_eq!(Delimiter::new(';'), Ok(Delimiter(';')));
    assert_eq!(Delimiter::new('\u{00E9}'), Err(DelimiterError));
    assert_eq!(Delimiter::default(), Delimiter(','));
}

#[test]
fn names_and_tags() {
    assert_eq!(LineCap::Square.name(), "square");
    assert_eq!(LineJoin::Bevel.name(), "bevel");
    assert_eq!(&ScriptKind::Sub.feature(), b"subs");
    assert_eq!(&ScriptKind::Super.feature(), b"sups");
}

fn labelled_index() -> Introspector {
    let at = |c: Content, loc: u128, numbering: Option<&str>| Entry {
        content: c.located(Location::new(loc)),
        position: Position { page: 2, x: 0, y: 0 },
        numbering: numbering.map(|n| n.to_string()),
    };
    let numbered_heading = Content::new(ElemKind::Heading)
        .with_field("numbering".to_string(), Value::Str("1.".to_string()))
        .labelled("intro".to_string());
    let plain_heading = Content::new(ElemKind::Heading).labelled("plain".to_string());
    let image = Content::new(ElemKind::Image).labelled("pic".to_string());
    let note = FootnoteElem::with_content(Content::new(ElemKind::Text)).pack().labelled("note".to_string());
    let meta = MetadataElem { value: Value::Int(1) }.pack().labelled("meta".to_string());
    Introspector::new(
        vec![
            at(numbered_heading, 1, Some("i")),
            at(plain_heading, 2, None),
            at(image, 3, None),
            at(note, 4, None),
            at(meta, 5, None),
        ],
        1,
    )
}

fn reference(target: &str, form: RefForm) -> RefElem {
    RefElem { target: target.to_string(), supplement: None, form }
}

#[test]
fn references_resolve_by_kind_and_form() {
    let intro = labelled_index();
    assert_eq!(
        reference("intro", RefForm::Normal).resolve(&intro, false),
        Ok(RefResolution::Element { location: Location::new(1), kind: ElemKind::Heading })
    );
    assert_eq!(
        reference("intro", RefForm::Page).resolve(&intro, false),
        Ok(RefResolution::Page { location: Location::new(1), numbering: "i".to_string() })
    );
    assert_eq!(reference("plain", RefForm::Page).resolve(&intro, false), Err(RefError::NoPageNumbering));
    assert_eq!(reference("plain", RefForm::Normal).resolve(&intro, false), Err(RefError::NoNumbering));
    assert_eq!(reference("pic", RefForm::Normal).resolve(&intro, false), Err(RefError::NeedsFigure));
    assert_eq!(reference("meta", RefForm::Normal).resolve(&intro, false), Err(RefError::NotReferable));
    assert_eq!(
        reference("note", RefForm::Normal).resolve(&intro, false),
        Ok(RefResolution::Footnote { location: Location::new(4) })
    );
    assert_eq!(reference("smith", RefForm::Normal).resolve(&intro, true), Ok(RefResolution::Citation));
    assert_eq!(reference("intro", RefForm::Normal).resolve(&intro, true), Err(RefError::InBibliographyToo));
    assert_eq!(reference("smith", RefForm::Normal).resolve(&intro, false), Err(RefError::LocationNotFound));
}

#[test]
fn ambiguous_labels_are_reported() {
    let at = |c: Content, loc: u128| Entry {
        content: c.located(Location::new(loc)),
        position: Position { page: 1, x: 0, y: 0 },
        numbering: None,
    };
    let twin = || FootnoteElem::with_content(Content::new(ElemKind::Text)).pack().labelled("twin".to_string());
    let note = FootnoteElem::with_label("twin".to_string()).pack();
    let intro = Introspector::new(vec![at(twin(), 1), at(twin(), 2), at(note, 3)], 1);
    let placed = intro.query(&typst_introspect::selector::Selector::Location(Location::new(3)));
    assert_eq!(declaration_location(&placed[0], &intro), Err(FootnoteError::AmbiguousMatch));
    let r = RefElem { target: "twin".to_string(), supplement: None, form: RefForm::Normal };
    assert_eq!(r.resolve(&intro, false), Err(RefError::AmbiguousMatch));
}
