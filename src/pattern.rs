use vstd::prelude::*;
use vstd::string::StringExecFns;

use crate::numbering::{apply_spec, kind_of_char, NumberingKind};
use crate::numerals::push_char;
use crate::value::{Func, Value};

verus! {

/// The characters of a string, in order.
fn chars_of(s: &str) -> (r: Vec<char>)
    ensures
        r@ == s@,
{
    broadcast use vstd::string::group_string_axioms;

    let mut r: Vec<char> = Vec::new();
    for c in it: s.chars()
        invariant
            r@ == it.seq().subrange(0, it.index() as int),
    {
        r.push(c);
    }
    assert(r@ =~= s@);
    r
}

/// A pattern that numbers sequences of numbers: one counting symbol per
/// level, each after its prefix, then a suffix. Numbers beyond the last
/// counting symbol repeat it.
#[derive(Debug, Clone, PartialEq, Eq, Hash)]
pub struct NumberingPattern {
    pub pieces: Vec<(String, NumberingKind)>,
    pub suffix: String,
    /// Whether the first prefix and the suffix are left out.
    pub trimmed: bool,
}

/// The text of the `i`-th number of a sequence under the pattern's pieces.
pub open spec fn piece_text(
    pieces: Seq<(String, NumberingKind)>,
    suffix: Seq<char>,
    trimmed: bool,
    numbers: Seq<u64>,
    i: int,
) -> Seq<char> {
    if i < pieces.len() {
        (if i > 0 || !trimmed {
            pieces[i].0@
        } else {
            Seq::empty()
        }) + apply_spec(pieces[i].1, numbers[i])
    } else {
        (if pieces.last().0@.len() == 0 {
            suffix
        } else {
            pieces.last().0@
        }) + apply_spec(pieces.last().1, numbers[i])
    }
}

/// The text of the first `i` numbers under the pattern's pieces.
pub open spec fn pieces_text(
    pieces: Seq<(String, NumberingKind)>,
    suffix: Seq<char>,
    trimmed: bool,
    numbers: Seq<u64>,
    i: int,
) -> Seq<char>
    decreases i,
{
    if i <= 0 {
        Seq::empty()
    } else {
        pieces_text(pieces, suffix, trimmed, numbers, i - 1) + piece_text(
            pieces,
            suffix,
            trimmed,
            numbers,
            i - 1,
        )
    }
}

/// The pieces and the start of the suffix after the first `i` characters of
/// a pattern: each counting character closes a piece whose prefix is the
/// text since the previous one.
pub open spec fn scan(s: Seq<char>, i: int) -> (Seq<(Seq<char>, NumberingKind)>, int)
    decreases i,
{
    if i <= 0 {
        (Seq::empty(), 0)
    } else {
        let (p, h) = scan(s, i - 1);
        match kind_of_char(s[i - 1]) {
            Some(k) => (p.push((s.subrange(h, i - 1), k)), i),
            None => (p, h),
        }
    }
}

/// A pattern without any counting character.
#[derive(Debug, Clone, Copy, PartialEq, Eq, Hash, Structural)]
pub struct PatternError;

proof fn lemma_scan_bounds(s: Seq<char>, i: int)
    requires
        0 <= i <= s.len(),
    ensures
        0 <= scan(s, i).1 <= i,
    decreases i,
{
    if i > 0 {
        lemma_scan_bounds(s, i - 1);
    }
}

impl NumberingPattern {
    /// Reads a pattern such as `1.a)`: each counting character (see
    /// `NumberingKind::from_char`) closes a piece whose prefix is the text
    /// before it; what follows the last one is the suffix. A pattern needs
    /// at least one counting character.
    pub fn from_str(pattern: &str) -> (r: Result<NumberingPattern, PatternError>)
        ensures
            ({
                let (p, h) = scan(pattern@, pattern@.len() as int);
                &&& p.len() == 0 ==> r == Err::<NumberingPattern, PatternError>(PatternError)
                &&& p.len() > 0 ==> r is Ok && r->Ok_0.pieces@.len() == p.len() && (forall|i: int|
                    0 <= i < p.len() ==> (#[trigger] r->Ok_0.pieces@[i]).0@ == p[i].0
                        && r->Ok_0.pieces@[i].1 == p[i].1) && r->Ok_0.suffix@ == pattern@.subrange(
                    h,
                    pattern@.len() as int,
                ) && !r->Ok_0.trimmed
            }),
    {
        let chars = chars_of(pattern);
        let mut pieces: Vec<(String, NumberingKind)> = Vec::new();
        let mut handled: usize = 0;
        let mut i: usize = 0;
        while i < chars.len()
            invariant
                chars@ == pattern@,
                i <= chars@.len(),
                handled == scan(chars@, i as int).1,
                handled <= i,
                pieces@.len() == scan(chars@, i as int).0.len(),
                forall|j: int|
                    0 <= j < pieces@.len() ==> (#[trigger] pieces@[j]).0@ == scan(
                        chars@,
                        i as int,
                    ).0[j].0 && pieces@[j].1 == scan(chars@, i as int).0[j].1,
            decreases chars@.len() - i,
        {
            let c = chars[i];
            match NumberingKind::from_char(c) {
                Some(kind) => {
                    let prefix = collect(&chars, handled, i);
                    pieces.push((prefix, kind));
                    handled = i + 1;
                },
                None => {},
            }
            i = i + 1;
        }
        proof {
            lemma_scan_bounds(chars@, chars@.len() as int);
        }
        let suffix = collect(&chars, handled, chars.len());
        if pieces.len() == 0 {
            Err(PatternError)
        } else {
            Ok(NumberingPattern { pieces, suffix, trimmed: false })
        }
    }

    /// The number of counting symbols.
    pub fn pieces(&self) -> (r: usize)
        ensures
            r == self.pieces@.len(),
    {
        self.pieces.len()
    }

    /// The text of a sequence of numbers: each number after its prefix,
    /// written in its piece's kind, then the suffix. Numbers beyond the
    /// pieces repeat the last one, after its prefix or, where that is
    /// empty, after the suffix. A trimmed pattern leaves out the first
    /// prefix and the final suffix.
    pub fn apply(&self, numbers: &[u64]) -> (r: String)
        ensures
            r@ == (if self.pieces@.len() == 0 {
                Seq::empty()
            } else {
                pieces_text(
                    self.pieces@,
                    self.suffix@,
                    self.trimmed,
                    numbers@,
                    numbers@.len() as int,
                )
            }) + (if self.trimmed {
                Seq::empty()
            } else {
                self.suffix@
            }),
    {
        let mut fmt = String::new();
        let np = self.pieces.len();
        if np > 0 {
            let mut i: usize = 0;
            while i < numbers.len()
                invariant
                    np == self.pieces@.len(),
                    np > 0,
                    i <= numbers@.len(),
                    fmt@ == pieces_text(self.pieces@, self.suffix@, self.trimmed, numbers@, i as int),
                decreases numbers@.len() - i,
            {
                let n = numbers[i];
                if i < np {
                    let (prefix, kind) = &self.pieces[i];
                    if i > 0 || !self.trimmed {
                        fmt.append(prefix.as_str());
                    }
                    let text = kind.apply(n);
                    fmt.append(text.as_str());
                } else {
                    let (prefix, kind) = &self.pieces[np - 1];
                    if prefix.as_str().is_empty() {
                        fmt.append(self.suffix.as_str());
                    } else {
                        fmt.append(prefix.as_str());
                    }
                    let text = kind.apply(n);
                    fmt.append(text.as_str());
                }
                i = i + 1;
                assert(fmt@ =~= pieces_text(self.pieces@, self.suffix@, self.trimmed, numbers@, i as int));
            }
        }
        let ghost body = fmt@;
        if !self.trimmed {
            fmt.append(self.suffix.as_str());
        }
        assert(fmt@ =~= body + (if self.trimmed {
            Seq::empty()
        } else {
            self.suffix@
        }));
        fmt
    }

    /// The text of the number at level `k` alone: the first prefix, the
    /// number in the kind of level `k` (the last kind beyond the pieces),
    /// and the suffix.
    pub fn apply_kth(&self, k: usize, number: u64) -> (r: String)
        ensures
            r@ == (if self.pieces@.len() == 0 {
                self.suffix@
            } else {
                self.pieces@[0].0@ + apply_spec(
                    if k < self.pieces@.len() {
                        self.pieces@[k as int].1
                    } else {
                        self.pieces@.last().1
                    },
                    number,
                ) + self.suffix@
            }),
    {
        let mut fmt = String::new();
        let np = self.pieces.len();
        if np > 0 {
            fmt.append(self.pieces[0].0.as_str());
            let kind = if k < np {
                self.pieces[k].1
            } else {
                self.pieces[np - 1].1
            };
            let text = kind.apply(number);
            fmt.append(text.as_str());
        }
        fmt.append(self.suffix.as_str());
        assert(fmt@ =~= (if self.pieces@.len() == 0 {
            self.suffix@
        } else {
            self.pieces@[0].0@ + apply_spec(
                if k < self.pieces@.len() {
                    self.pieces@[k as int].1
                } else {
                    self.pieces@.last().1
                },
                number,
            ) + self.suffix@
        }));
        fmt
    }
}

/// The characters `start` up to `end` as a string.
fn collect(chars: &Vec<char>, start: usize, end: usize) -> (r: String)
    requires
        start <= end <= chars@.len(),
    ensures
        r@ == chars@.subrange(start as int, end as int),
{
    let mut s = String::new();
    let mut i: usize = start;
    while i < end
        invariant
            start <= i <= end <= chars@.len(),
            s@ == chars@.subrange(start as int, i as int),
        decreases end - i,
    {
        push_char(&mut s, chars[i]);
        i = i + 1;
        assert(s@ =~= chars@.subrange(start as int, i as int));
    }
    s
}

/// The numbers as a vector.
fn copy_numbers(numbers: &[u64]) -> (r: Vec<u64>)
    ensures
        r@ == numbers@,
{
    let mut r: Vec<u64> = Vec::new();
    let mut i: usize = 0;
    while i < numbers.len()
        invariant
            i <= numbers@.len(),
            r@ == numbers@.subrange(0, i as int),
        decreases numbers@.len() - i,
    {
        r.push(numbers[i]);
        i = i + 1;
        assert(r@ =~= numbers@.subrange(0, i as int));
    }
    assert(r@ =~= numbers@);
    r
}

/// How numbers are shown: by a pattern, or by a user function.
#[derive(Debug, Clone, PartialEq, Eq, Hash)]
pub enum Numbering {
    Pattern(NumberingPattern),
    Func(Func),
}

impl Numbering {
    /// The numbering with its pattern, if it has one, trimmed.
    pub fn trimmed(self) -> (r: Numbering)
        ensures
            match self {
                Numbering::Pattern(p) => r == Numbering::Pattern(
                    NumberingPattern { trimmed: true, ..p },
                ),
                Numbering::Func(f) => r == Numbering::Func(f),
            },
    {
        match self {
            Numbering::Pattern(p) => Numbering::Pattern(NumberingPattern { trimmed: true, ..p }),
            Numbering::Func(f) => Numbering::Func(f),
        }
    }

    /// The numbers shown: the pattern's text as a string, or what the user
    /// function returns, called through `call`.
    pub fn apply<E, G: Fn(Func, Vec<u64>) -> Result<Value, E>>(&self, call: &G, numbers: &[u64]) -> (r: Result<Value, E>)
        requires
            forall|f: Func, v: Vec<u64>| call_requires(*call, (f, v)),
        ensures
            match *self {
                Numbering::Pattern(p) => r is Ok && r->Ok_0 is Str && r->Ok_0->Str_0@ == (if p.pieces@.len() == 0 {
                    Seq::empty()
                } else {
                    pieces_text(p.pieces@, p.suffix@, p.trimmed, numbers@, numbers@.len() as int)
                }) + (if p.trimmed {
                    Seq::empty()
                } else {
                    p.suffix@
                }),
                Numbering::Func(f) => exists|v: Vec<u64>| v@ == numbers@ && call_ensures(*call, (f, v), r),
            },
    {
        match self {
            Numbering::Pattern(p) => Ok(Value::Str(p.apply(numbers))),
            Numbering::Func(f) => {
                let v = copy_numbers(numbers);
                call(*f, v)
            },
        }
    }
}

} // verus!
