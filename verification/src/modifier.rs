//! The exposure level of a declaration, and the mapping from source
//! visibility to it.

use vstd::prelude::*;

verus! {

/// Exposure level of a declaration as the traversal protocol reports it:
/// public, private, or unspecified.
///
/// A `Modifier` is pure data: it is copied freely and has no identity
/// beyond its value.
#[derive(Clone, Copy, PartialEq, Eq, Structural, Debug)]
pub enum Modifier {
    Public,
    Private,
    Unspecified,
}

/// The visibility of a declaration as it stands in source, before the
/// mapping to a `Modifier`: an explicit `pub`, an inherited (absent)
/// visibility, or a restricted one such as `pub(crate)`.
#[derive(Clone, Copy, PartialEq, Eq, Structural, Debug)]
pub enum SourceVisibility {
    Public,
    Inherited,
    Restricted,
}

/// What `map_visibility` returns for each source visibility.
pub open spec fn map_visibility_spec(vis: SourceVisibility) -> Modifier {
    match vis {
        SourceVisibility::Public => Modifier::Public,
        SourceVisibility::Inherited => Modifier::Private,
        SourceVisibility::Restricted => Modifier::Unspecified,
    }
}

/// Maps a declaration's source visibility to the modifier that the
/// traversal protocol carries: explicit `pub` is public, an inherited
/// visibility is private, and anything else is left unspecified.
pub fn map_visibility(vis: SourceVisibility) -> (m: Modifier)
    ensures
        m == map_visibility_spec(vis),
{
    match vis {
        SourceVisibility::Public => Modifier::Public,
        SourceVisibility::Inherited => Modifier::Private,
        SourceVisibility::Restricted => Modifier::Unspecified,
    }
}

} // verus!
