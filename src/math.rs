use vstd::prelude::*;

use crate::content::{restyled, style_is, style_is_str, Content};
use crate::value::Value;

verus! {

/// The size of elements in an equation, from the smallest up.
#[derive(Debug, Clone, Copy, PartialEq, Eq, PartialOrd, Ord, Hash, Structural)]
pub enum MathSize {
    /// Second-level sub- and superscripts.
    ScriptScript,
    /// Sub- and superscripts.
    Script,
    /// Math in text.
    Text,
    /// Math on its own line.
    Display,
}

impl MathSize {
    /// The name of the size in markup.
    pub open spec fn name_spec(self) -> Seq<char> {
        match self {
            MathSize::ScriptScript => "script-script"@,
            MathSize::Script => "script"@,
            MathSize::Text => "text"@,
            MathSize::Display => "display"@,
        }
    }

    /// The name of the size in markup.
    pub fn name(self) -> (r: &'static str)
        ensures
            r@ == self.name_spec(),
    {
        match self {
            MathSize::ScriptScript => "script-script",
            MathSize::Script => "script",
            MathSize::Text => "text",
            MathSize::Display => "display",
        }
    }
}

/// How a fraction is drawn.
#[derive(Debug, Clone, Copy, PartialEq, Eq, Hash, Structural, Default)]
pub enum FracStyle {
    /// Numerator above denominator.
    #[default]
    Vertical,
    /// Numerator and denominator side by side along a slanted bar.
    Skewed,
    /// Numerator and denominator on one line with a slash.
    Horizontal,
}

/// A fraction.
#[derive(Debug, Clone, PartialEq, Eq, Hash)]
pub struct FracElem {
    pub num: Content,
    pub denom: Content,
    pub style: FracStyle,
}

/// A binomial coefficient.
#[derive(Debug, Clone, PartialEq, Eq, Hash)]
pub struct BinomElem {
    pub upper: Content,
    pub lower: Vec<Content>,
}

/// Sets one style property on the body.
fn styled(body: Content, name: &str, value: Value) -> (r: Content)
    ensures
        restyled(r, body, 1),
        style_is(r.styles@.last(), name@, value),
{
    let ghost n = body.styles@.len();
    let r = body.set(name.to_owned(), value);
    assert(r.styles@.subrange(0, n as int) =~= body.styles@);
    r
}

/// Sets the size and crampedness of the body.
fn sized(body: Content, size: MathSize, cramped: bool) -> (r: Content)
    ensures
        restyled(r, body, 2),
        style_is_str(r.styles@[body.styles@.len() as int], "size"@, size.name_spec()),
        style_is(r.styles@[body.styles@.len() + 1int], "cramped"@, Value::Bool(cramped)),
{
    let ghost n = body.styles@.len();
    let a = styled(body, "size", Value::Str(size.name().to_owned()));
    let r = styled(a, "cramped", Value::Bool(cramped));
    assert(r.styles@.subrange(0, n as int) =~= a.styles@.subrange(0, n as int));
    r
}

/// Bold font style in math.
pub fn bold(body: Content) -> (r: Content)
    ensures
        restyled(r, body, 1),
        style_is(r.styles@.last(), "bold"@, Value::Bool(true)),
{
    styled(body, "bold", Value::Bool(true))
}

/// Upright (non-italic) font style in math.
pub fn upright(body: Content) -> (r: Content)
    ensures
        restyled(r, body, 1),
        style_is(r.styles@.last(), "italic"@, Value::Bool(false)),
{
    styled(body, "italic", Value::Bool(false))
}

/// Italic font style in math.
pub fn italic(body: Content) -> (r: Content)
    ensures
        restyled(r, body, 1),
        style_is(r.styles@.last(), "italic"@, Value::Bool(true)),
{
    styled(body, "italic", Value::Bool(true))
}

/// Forces the display size, the size of block equations.
pub fn display(body: Content, cramped: bool) -> (r: Content)
    ensures
        restyled(r, body, 2),
        style_is_str(r.styles@[body.styles@.len() as int], "size"@, "display"@),
        style_is(r.styles@[body.styles@.len() + 1int], "cramped"@, Value::Bool(cramped)),
{
    sized(body, MathSize::Display, cramped)
}

/// Forces the inline size, the size of equations in text.
pub fn inline(body: Content, cramped: bool) -> (r: Content)
    ensures
        restyled(r, body, 2),
        style_is_str(r.styles@[body.styles@.len() as int], "size"@, "text"@),
        style_is(r.styles@[body.styles@.len() + 1int], "cramped"@, Value::Bool(cramped)),
{
    sized(body, MathSize::Text, cramped)
}

/// Forces the script size, used in sub- and superscripts.
pub fn script(body: Content, cramped: bool) -> (r: Content)
    ensures
        restyled(r, body, 2),
        style_is_str(r.styles@[body.styles@.len() as int], "size"@, "script"@),
        style_is(r.styles@[body.styles@.len() + 1int], "cramped"@, Value::Bool(cramped)),
{
    sized(body, MathSize::Script, cramped)
}

/// Forces the second script size, used in sub- and superscripts of
/// scripts.
pub fn sscript(body: Content, cramped: bool) -> (r: Content)
    ensures
        restyled(r, body, 2),
        style_is_str(r.styles@[body.styles@.len() as int], "size"@, "script-script"@),
        style_is(r.styles@[body.styles@.len() + 1int], "cramped"@, Value::Bool(cramped)),
{
    sized(body, MathSize::ScriptScript, cramped)
}

} // verus!
