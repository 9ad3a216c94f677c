//! Identifiers of accessibility nodes, render-tree nodes and elements.

use vstd::prelude::*;

verus! {

/// Identity of a node of the accessibility tree: a 128-bit number that the
/// node keeps for as long as it exists. Zero identifies no node.
#[derive(Clone, Copy, Debug, PartialEq, Eq, Hash, Structural)]
pub struct AccessibilityId(pub u128);

/// Position of a node in the render tree.
#[derive(Clone, Copy, Debug, PartialEq, Eq, Hash, Structural)]
pub struct NodeId(pub usize);

/// Identity under which the application knows an element. It is distinct
/// from the element's position in the render tree.
#[derive(Clone, Copy, Debug, PartialEq, Eq, Hash, Structural)]
pub struct ElementId(pub usize);

/// The bits that every version-4, RFC 4122 identifier has in common.
pub open spec fn is_random_uuid(bits: u128) -> bool {
    bits & 0x0000_0000_0000_F000_C000_0000_0000_0000u128
        == 0x0000_0000_0000_4000_8000_0000_0000_0000u128
}

/// The identity of the synthetic root of every tree.
pub open spec fn spec_window_id() -> AccessibilityId {
    AccessibilityId(1)
}

/// The identity of the synthetic root of every tree.
#[verifier::when_used_as_spec(spec_window_id)]
pub fn window_id() -> (id: AccessibilityId)
    ensures
        id == spec_window_id(),
{
    AccessibilityId(1)
}

/// A version-4 identifier is neither zero nor the root's identity.
proof fn lemma_random_uuid_is_fresh(bits: u128)
    requires
        is_random_uuid(bits),
    ensures
        bits != 0,
        AccessibilityId(bits) != spec_window_id(),
{
    assert(bits & 0x0000_0000_0000_F000_C000_0000_0000_0000u128
        == 0x0000_0000_0000_4000_8000_0000_0000_0000u128 ==> bits != 0 && bits != 1)
        by (bit_vector);
}

/// Draws a version-4 UUID from `uuid::Uuid::new_v4` and hands out its 128
/// bits as `Uuid::as_u128` packs them. The value is random: all that is
/// claimed is that the version nibble is 4 and the variant bits are `10`,
/// which `new_v4` sets by masking. The call panics where the operating
/// system cannot supply random bytes.
#[verifier::external_body]
fn random_uuid_bits() -> (bits: u128)
    ensures
        is_random_uuid(bits),
{
    uuid::Uuid::new_v4().as_u128()
}

impl AccessibilityId {
    /// The identity with the given number; zero gives none.
    pub fn new(bits: u128) -> (id: Option<AccessibilityId>)
        ensures
            id == if bits == 0 {
                None
            } else {
                Some(AccessibilityId(bits))
            },
    {
        if bits == 0 {
            None
        } else {
            Some(AccessibilityId(bits))
        }
    }
}

/// A new random identity for a node that acquires accessibility semantics.
/// It is never zero and never the root's.
pub fn new_accessibility_id() -> (id: AccessibilityId)
    ensures
        is_random_uuid(id.0),
        id.0 != 0,
        id != spec_window_id(),
{
    let bits = random_uuid_bits();
    proof {
        lemma_random_uuid_is_fresh(bits);
    }
    AccessibilityId::new(bits).unwrap()
}

} // verus!
