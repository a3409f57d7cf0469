use vstd::prelude::*;

use crate::content::Content;

verus! {

/// Whether a script is a subscript or a superscript.
#[derive(Debug, Clone, Copy, PartialEq, Eq, Hash, Structural)]
pub enum ScriptKind {
    Sub,
    Super,
}

impl ScriptKind {
    /// The OpenType feature tag that selects glyphs for this kind: the bytes
    /// of `subs` or `sups`.
    pub fn feature(self) -> (r: [u8; 4])
        ensures
            r@ == match self {
                ScriptKind::Sub => seq![115u8, 117u8, 98u8, 115u8],
                ScriptKind::Super => seq![115u8, 117u8, 112u8, 115u8],
            },
    {
        match self {
            ScriptKind::Sub => [115u8, 117u8, 98u8, 115u8],
            ScriptKind::Super => [115u8, 117u8, 112u8, 115u8],
        }
    }
}

/// Subscript text.
#[derive(Debug, Clone, PartialEq, Eq, Hash)]
pub struct SubElem {
    /// Whether the font's own subscript glyphs are used where it has them.
    pub typographic: bool,
    pub body: Content,
}

/// Superscript text.
#[derive(Debug, Clone, PartialEq, Eq, Hash)]
pub struct SuperElem {
    /// Whether the font's own superscript glyphs are used where it has them.
    pub typographic: bool,
    pub body: Content,
}

} // verus!
