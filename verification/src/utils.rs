//! A helper for building a value in one expression.

use vstd::prelude::*;

verus! {

/// Adds `also` to every type: change a value on its way, and pass it on.
pub trait Also: Sized {
    /// Hands the value to `also` to be changed, and returns it as `also` left it.
    fn also<F: FnOnce(&mut Self)>(self, also: F) -> (r: Self)
        requires
            forall|v: &mut Self| *v == self ==> call_requires(also, (v,)),
        ensures
            exists|v: &mut Self| *v == self && *final(v) == r && call_ensures(also, (v,), ()),
    ;
}

impl<T> Also for T {
    fn also<F: FnOnce(&mut Self)>(self, also: F) -> (r: Self) {
        let mut value = self;
        also(&mut value);
        value
    }
}

} // verus!
