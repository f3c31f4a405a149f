//! A value that is either one of a known set or a raw code outside it.

use vstd::prelude::*;

verus! {

/// Either a known member `T`, or the raw code `Raw` that no member stands
/// for. The raw code is kept so that it can be reported or passed on.
#[derive(Debug, PartialEq, Eq, Structural)]
pub enum SfEnum<T, Raw> {
    Value(T),
    Unknown(Raw),
}

impl<T: Copy, Raw: Copy> Clone for SfEnum<T, Raw> {
    fn clone(&self) -> (r: Self)
        ensures
            r == *self,
    {
        *self
    }
}

impl<T: Copy, Raw: Copy> Copy for SfEnum<T, Raw> {

}

} // verus!
