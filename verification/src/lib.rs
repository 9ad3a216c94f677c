//! Projection of a laid-out scene into an accessibility tree, focus
//! navigation over that tree, and synthesis of element events from raw
//! platform input.

pub mod text;
pub mod ids;
pub mod role;
pub mod node;
pub mod focus;
pub mod accessibility;
pub mod scene;
pub mod layers;
pub mod projector;
pub mod provider;
pub mod values;
pub mod events;
pub mod ordering;
pub mod node_state;
pub mod focus_state;
