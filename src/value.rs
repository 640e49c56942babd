//! What failure messages need of a runtime value: its display form.
use vstd::prelude::*;

verus! {

/// A runtime value of the filter language that can be displayed.
///
/// Failure messages embed each value's display form verbatim.
pub trait Show {
    /// The display form of the value.
    spec fn shown(&self) -> Seq<char>;

    /// Renders the value to its display form.
    fn show(&self) -> (r: String)
        ensures
            r@ == self.shown(),
    ;
}

/// A string shows as its own text.
impl Show for String {
    open spec fn shown(&self) -> Seq<char> {
        self@
    }

    fn show(&self) -> (r: String) {
        self.clone()
    }
}

} // verus!
