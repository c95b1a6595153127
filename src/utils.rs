use vstd::prelude::*;

verus! {

/// A type that gives itself a name for the log.
pub trait Named {
    /// The name of the type.
    spec fn name_spec() -> Seq<char>;

    fn name(&self) -> (r: String)
        ensures
            r@ == Self::name_spec(),
    ;
}

/// Gets the name of an object's type, for the log.
pub fn type_name_of<T: ?Sized + Named>(v: &T) -> (r: String)
    ensures
        r@ == T::name_spec(),
{
    v.name()
}

} // verus!
