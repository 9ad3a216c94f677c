//! The semantic role of a node.

use vstd::prelude::*;

verus! {

/// What a node is to assistive technology.
#[derive(Clone, Copy, Debug, PartialEq, Eq, Hash, Structural)]
pub enum Role {
    /// Static text.
    Text,
    /// Something that can be activated.
    Button,
    /// A picture.
    Image,
    /// The window: the role of the synthetic root.
    Window,
    /// Any other role, by its number in the platform's vocabulary.
    Other(u8),
    /// No role is known.
    Unknown,
}

impl Default for Role {
    fn default() -> (role: Role)
        ensures
            role == Role::Unknown,
    {
        Role::Unknown
    }
}

} // verus!
