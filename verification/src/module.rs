use vstd::prelude::*;

verus! {

/// Trait used for modules, so that they have the same base functions.
///
/// Each implementor fixes its identity and metadata through the spec
/// functions, and the executable accessors are pure: they return exactly
/// those values and leave the module untouched.
pub trait Module {
    /// The stable identifier of the module.
    spec fn spec_id(&self) -> i16;

    /// The display name of the module.
    spec fn spec_name(&self) -> Seq<char>;

    /// The display description of the module.
    spec fn spec_description(&self) -> Seq<char>;

    /// The renderable series of the module: labelled numeric values,
    /// oldest first; empty when the module has no chart-style data.
    spec fn spec_data(&self) -> Seq<(Seq<char>, i16)>;

    /// Gets the id of the module.
    fn get_id(&self) -> (r: i16)
        ensures
            r == self.spec_id(),
    ;

    /// Gets the name of the module.
    fn get_name(&self) -> (r: String)
        ensures
            r@ == self.spec_name(),
    ;

    /// Gets the description of the module.
    fn get_description(&self) -> (r: String)
        ensures
            r@ == self.spec_description(),
    ;

    /// Gets a snapshot of the module's renderable data.
    fn get_data(&self) -> (r: Vec<(String, i16)>)
        ensures
            r.deep_view() == self.spec_data(),
    ;
}

} // verus!
