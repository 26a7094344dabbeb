//! What every kind of registered content has in common.

use vstd::prelude::*;

verus! {

/// The number by which an entry is stored and found again.
pub type Id = u16;

/// A content record that knows its own identifier and name.
pub trait Identifiable {
    /// The identifier of the entry that stands for a missing one.
    const UNKNOWN: Id;

    /// The identifier of this entry, for contracts.
    spec fn spec_id(&self) -> Id;

    /// The name of this entry, for contracts.
    spec fn spec_name(&self) -> Seq<char>;

    /// The identifier of this entry.
    fn id(&self) -> (id: &Id)
        ensures
            *id == self.spec_id(),
    ;

    /// The name of this entry.
    fn name(&self) -> (name: &str)
        ensures
            name@ == self.spec_name(),
    ;
}

} // verus!
