use vstd::prelude::*;

verus! {

/// A syntax module that contributes to the generated documentation, given
/// the parser's metadata `M`.
pub trait DocumentationModule<M> {
    /// The module's part of the documentation (Markdown).
    fn document(&self, meta: &M) -> String;
}

} // verus!
