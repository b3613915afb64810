use vstd::prelude::*;

verus! {

/// A value that lends out a `U`, always the same one for the same value.
pub trait Lend<U: ?Sized> {
    /// What the value lends.
    spec fn lent(&self) -> &U;

    fn lend(&self) -> (r: &U)
        ensures
            r == self.lent(),
    ;
}

/// The first list followed by the second.
pub fn merge<T>(xs: Vec<T>, ys: Vec<T>) -> (r: Vec<T>)
    ensures
        r@ == xs@ + ys@,
{
    let mut xs = xs;
    let mut ys = ys;
    xs.append(&mut ys);
    xs
}

/// The list with one more item at its end.
pub fn append<T>(xs: Vec<T>, x: T) -> (r: Vec<T>)
    ensures
        r@ == xs@.push(x),
{
    let mut xs = xs;
    xs.push(x);
    xs
}

/// The list with the item at its end where there is one, else unchanged.
pub fn append_opt<T>(xs: Vec<T>, x: Option<T>) -> (r: Vec<T>)
    ensures
        r@ == match x {
            Some(v) => xs@.push(v),
            None => xs@,
        },
{
    let mut xs = xs;
    if let Some(x) = x {
        xs.push(x);
    }
    xs
}

/// What the value inside an option lends, where there is a value.
pub fn as_ref<T, U>(x: &Option<T>) -> (r: Option<&U>) where T: Lend<U>, U: ?Sized
    ensures
        r == match x {
            Some(t) => Some(t.lent()),
            None => None,
        },
{
    match x {
        Some(t) => Some(t.lend()),
        None => None,
    }
}

} // verus!
