use vstd::prelude::*;

verus! {

/// The character that separates the fields of a CSV row; ASCII only.
#[derive(Debug, Clone, Copy, PartialEq, Eq, Hash, Structural)]
pub struct Delimiter(pub char);

/// A delimiter that is not an ASCII character.
#[derive(Debug, Clone, Copy, PartialEq, Eq, Hash, Structural)]
pub struct DelimiterError;

impl Delimiter {
    /// The delimiter `c`, which must be an ASCII character.
    pub fn new(c: char) -> (r: Result<Delimiter, DelimiterError>)
        ensures
            (c as u32) < 128 ==> r == Ok::<Delimiter, DelimiterError>(Delimiter(c)),
            (c as u32) >= 128 ==> r == Err::<Delimiter, DelimiterError>(DelimiterError),
    {
        if (c as u32) < 128 {
            Ok(Delimiter(c))
        } else {
            Err(DelimiterError)
        }
    }
}

impl Default for Delimiter {
    fn default() -> (r: Delimiter)
        ensures
            r == Delimiter(','),
    {
        Delimiter(',')
    }
}

/// How the rows of a CSV file are handed out.
#[derive(Debug, Clone, Copy, PartialEq, Eq, Hash, Structural)]
pub enum RowType {
    /// Each row as an array of fields.
    Array,
    /// Each row as a dictionary keyed by the header row.
    Dict,
}

/// The encoding of a file read as text.
#[derive(Debug, Clone, Copy, PartialEq, Eq, Hash, Structural)]
pub enum Encoding {
    Utf8,
}

/// One value or several.
#[derive(Debug, Clone, PartialEq, Eq, Hash)]
pub struct OneOrMultiple<T>(pub Vec<T>);

} // verus!
