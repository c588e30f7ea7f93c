use vstd::prelude::*;

verus! {

/// What can go wrong while a contract is defined or called.
#[derive(Clone, Copy, Debug, PartialEq, Eq, Structural)]
pub enum Error {
    /// No dispatch entry answers the selector of the call.
    SelectorNotFound,
    /// The storage denied the access that a module asked for.
    StorageAccessError,
    /// A layout does not give every module slots of its own.
    LayoutCollisionError,
    /// Two dispatch entries share one selector.
    SelectorCollisionError,
}

} // verus!
