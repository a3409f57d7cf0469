use vstd::prelude::*;

use crate::value::Func;

verus! {

/// A value that can be configured per cell of a grid.
#[derive(Debug, Clone, PartialEq, Eq, Hash)]
pub enum Celled<T> {
    /// The same value for every cell.
    Value(T),
    /// A user function from the cell's column and row to the value.
    Func(Func),
    /// One value per column, repeating.
    Array(Vec<T>),
}

/// Whether `r` is what a per-cell value gives the cell in column `x` and
/// row `y`: the value itself, what the user function returned, the entry of
/// the array for the column (cycling), or the default where the array is
/// empty.
pub open spec fn resolves_to<T: Copy + Default, E, G: Fn(Func, usize, usize) -> Result<T, E>>(
    celled: Celled<T>,
    call: G,
    x: usize,
    y: usize,
    r: Result<T, E>,
) -> bool {
    match celled {
        Celled::Value(v) => r == Ok::<T, E>(v),
        Celled::Func(f) => call_ensures(call, (f, x, y), r),
        Celled::Array(a) => if a@.len() > 0 {
            r == Ok::<T, E>(a@[x as int % a@.len() as int])
        } else {
            r is Ok && call_ensures(T::default, (), r->Ok_0)
        },
    }
}

impl<T: Copy + Default> Celled<T> {
    /// The value for the cell in column `x` and row `y`. A user function is
    /// called through `call`.
    pub fn resolve<E, G: Fn(Func, usize, usize) -> Result<T, E>>(
        &self,
        call: &G,
        x: usize,
        y: usize,
    ) -> (r: Result<T, E>)
        requires
            forall|f: Func| call_requires(*call, (f, x, y)),
        ensures
            resolves_to(*self, *call, x, y, r),
    {
        match self {
            Celled::Value(v) => Ok(*v),
            Celled::Func(f) => call(*f, x, y),
            Celled::Array(a) => {
                if a.len() == 0 {
                    Ok(T::default())
                } else {
                    Ok(a[x % a.len()])
                }
            },
        }
    }
}

/// A per-cell value whose plain values were already resolved against the
/// styles; a user function is resolved only when it is called.
#[derive(Debug, Clone, PartialEq, Eq, Hash)]
pub struct ResolvedCelled<T>(pub Celled<T>);

impl<T: Copy + Default> ResolvedCelled<T> {
    /// The value for the cell in column `x` and row `y`.
    pub fn resolve<E, G: Fn(Func, usize, usize) -> Result<T, E>>(
        &self,
        call: &G,
        x: usize,
        y: usize,
    ) -> (r: Result<T, E>)
        requires
            forall|f: Func| call_requires(*call, (f, x, y)),
        ensures
            resolves_to(self.0, *call, x, y, r),
    {
        self.0.resolve(call, x, y)
    }
}

} // verus!
