//! How a render-tree node gets its accessibility attributes from the
//! attributes that the application wrote on it.
//!
//! A node acquires accessibility semantics through its `accessibility`
//! attribute: with a role as its value, or, for text and image elements,
//! with any value. At that moment it is given an identity, which it keeps
//! through every later update for as long as it has the semantics.

use vstd::prelude::*;
use crate::ids::{is_random_uuid, new_accessibility_id, AccessibilityId};
use crate::node::text_of;
use crate::role::Role;
use crate::scene::{Accessibility, AccessibilityModel};
use crate::text::str_eq;

verus! {

/// The value of an attribute.
#[derive(Debug)]
pub enum AttributeValue {
    Text(String),
    Bool(bool),
    Role(Role),
    /// A value of a kind that no accessibility attribute takes.
    Other,
}

/// What the value of an attribute is, as plain mathematics.
pub enum AttributeValueModel {
    Text(Seq<char>),
    Bool(bool),
    Role(Role),
    Other,
}

impl View for AttributeValue {
    type V = AttributeValueModel;

    open spec fn view(&self) -> AttributeValueModel {
        match self {
            AttributeValue::Text(text) => AttributeValueModel::Text(text@),
            AttributeValue::Bool(flag) => AttributeValueModel::Bool(*flag),
            AttributeValue::Role(role) => AttributeValueModel::Role(*role),
            AttributeValue::Other => AttributeValueModel::Other,
        }
    }
}

/// An attribute of a node: its name and its value.
#[derive(Debug)]
pub struct Attribute {
    pub name: String,
    pub value: AttributeValue,
}

/// What an attribute is, as plain mathematics.
pub struct AttributeModel {
    pub name: Seq<char>,
    pub value: AttributeValueModel,
}

impl View for Attribute {
    type V = AttributeModel;

    open spec fn view(&self) -> AttributeModel {
        AttributeModel { name: self.name@, value: self.value@ }
    }
}

/// The models of a list of attributes.
pub open spec fn attribute_models(attributes: Seq<Attribute>) -> Seq<AttributeModel> {
    Seq::new(attributes.len(), |i: int| attributes[i]@)
}

/// What is seen of a node when its state is brought up to date: the tag of
/// its element, if it is one, and its attributes, if it has any.
#[derive(Debug)]
pub struct NodeView {
    pub tag: Option<String>,
    pub attributes: Option<Vec<Attribute>>,
}

/// What is seen of a node, as plain mathematics.
pub struct NodeViewModel {
    pub tag: Option<Seq<char>>,
    pub attributes: Option<Seq<AttributeModel>>,
}

impl View for NodeView {
    type V = NodeViewModel;

    open spec fn view(&self) -> NodeViewModel {
        NodeViewModel {
            tag: text_of(self.tag),
            attributes: match self.attributes {
                Some(attributes) => Some(attribute_models(attributes@)),
                None => None,
            },
        }
    }
}

/// The attributes of a node that was given none.
pub open spec fn no_semantics() -> AccessibilityModel {
    AccessibilityModel { role: None, id: None, focusable: false, name: None, alt: None }
}

/// The role that an element has by its tag alone: text for `text` and
/// `label`, image for `image`, none for any other.
pub open spec fn role_by_tag(tag: Option<Seq<char>>) -> Option<Role> {
    match tag {
        Some(tag) => if tag == "text"@ || tag == "label"@ {
            Some(Role::Text)
        } else if tag == "image"@ {
            Some(Role::Image)
        } else {
            None
        },
        None => None,
    }
}

/// The state after one attribute was read. An attribute of another name,
/// or with a value of a kind that its name does not take, changes nothing.
pub open spec fn with_attribute(
    state: AccessibilityModel,
    tag: Option<Seq<char>>,
    attribute: AttributeModel,
    identity: AccessibilityId,
) -> AccessibilityModel {
    if attribute.name == "accessibility"@ {
        match attribute.value {
            AttributeValueModel::Role(role) => AccessibilityModel {
                role: Some(role),
                id: Some(identity),
                ..state
            },
            _ => match role_by_tag(tag) {
                Some(role) => AccessibilityModel { role: Some(role), id: Some(identity), ..state },
                None => state,
            },
        }
    } else if attribute.name == "focusable"@ {
        match attribute.value {
            AttributeValueModel::Bool(focusable) => AccessibilityModel { focusable, ..state },
            _ => state,
        }
    } else if attribute.name == "name"@ {
        match attribute.value {
            AttributeValueModel::Text(name) => AccessibilityModel { name: Some(name), ..state },
            _ => state,
        }
    } else if attribute.name == "alt"@ {
        match attribute.value {
            AttributeValueModel::Text(alt) => AccessibilityModel { alt: Some(alt), ..state },
            _ => state,
        }
    } else {
        state
    }
}

/// The state after the first `count` attributes were read in order,
/// starting from a node without semantics.
pub open spec fn with_attributes(
    tag: Option<Seq<char>>,
    attributes: Seq<AttributeModel>,
    identity: AccessibilityId,
    count: nat,
) -> AccessibilityModel
    decreases count,
{
    if count == 0 || count > attributes.len() {
        no_semantics()
    } else {
        with_attribute(
            with_attributes(tag, attributes, identity, (count - 1) as nat),
            tag,
            attributes[count - 1],
            identity,
        )
    }
}

/// The identity that a node has once it has accessibility semantics: the
/// one it had before, or else the fresh one.
pub open spec fn identity_of(before: AccessibilityModel, fresh: AccessibilityId) -> AccessibilityId {
    match before.id {
        Some(id) => id,
        None => fresh,
    }
}

/// The attributes of a node after an update: what its attributes say,
/// read from scratch, under the identity that the node keeps or is given.
pub open spec fn updated(
    before: AccessibilityModel,
    view: NodeViewModel,
    fresh: AccessibilityId,
) -> AccessibilityModel {
    match view.attributes {
        Some(attributes) => with_attributes(
            view.tag,
            attributes,
            identity_of(before, fresh),
            attributes.len(),
        ),
        None => no_semantics(),
    }
}

/// Whatever the attributes are, the state read from them carries no
/// identity or the one it was read under.
proof fn lemma_with_attributes_identity(
    tag: Option<Seq<char>>,
    attributes: Seq<AttributeModel>,
    identity: AccessibilityId,
    count: nat,
)
    ensures
        with_attributes(tag, attributes, identity, count).id is None || with_attributes(
            tag,
            attributes,
            identity,
            count,
        ).id == Some(identity),
    decreases count,
{
    if count == 0 || count > attributes.len() {
    } else {
        lemma_with_attributes_identity(tag, attributes, identity, (count - 1) as nat);
    }
}

/// Stable identity: a node that had an identity and still has accessibility
/// semantics after an update has the same identity, whatever else its
/// attributes changed and whatever fresh identity was at hand.
pub proof fn lemma_identity_is_kept(
    before: AccessibilityModel,
    view: NodeViewModel,
    fresh: AccessibilityId,
)
    requires
        before.id is Some,
    ensures
        updated(before, view, fresh).id is None || updated(before, view, fresh).id == before.id,
{
    if let Some(attributes) = view.attributes {
        lemma_with_attributes_identity(
            view.tag,
            attributes,
            identity_of(before, fresh),
            attributes.len(),
        );
    }
}

/// Whether two optional strings hold the same characters.
pub fn same_text(a: &Option<String>, b: &Option<String>) -> (same: bool)
    ensures
        same == (text_of(*a) == text_of(*b)),
{
    match (a, b) {
        (Some(x), Some(y)) => str_eq(x.as_str(), y.as_str()),
        (None, None) => true,
        _ => false,
    }
}

/// The role that an element has by its tag alone.
pub fn get_role_by_tag(tag: &Option<String>) -> (role: Option<Role>)
    ensures
        role == role_by_tag(text_of(*tag)),
{
    match tag {
        Some(tag) => if str_eq(tag.as_str(), "text") || str_eq(tag.as_str(), "label") {
            Some(Role::Text)
        } else if str_eq(tag.as_str(), "image") {
            Some(Role::Image)
        } else {
            None
        },
        None => None,
    }
}

impl Accessibility {
    /// Whether two states hold the same attributes.
    pub fn same_as(&self, other: &Accessibility) -> (same: bool)
        ensures
            same == (self@ == other@),
    {
        self.role == other.role && self.id == other.id && self.focusable == other.focusable
            && same_text(&self.name, &other.name) && same_text(&self.alt, &other.alt)
    }

    /// Reads one attribute into the state.
    fn read_attribute(
        &mut self,
        tag: &Option<String>,
        attribute: &Attribute,
        identity: AccessibilityId,
    )
        ensures
            final(self)@ == with_attribute(old(self)@, text_of(*tag), attribute@, identity),
    {
        let name = attribute.name.as_str();
        if str_eq(name, "accessibility") {
            match &attribute.value {
                AttributeValue::Role(role) => {
                    self.role = Some(*role);
                    self.id = Some(identity);
                },
                _ => match get_role_by_tag(tag) {
                    Some(role) => {
                        self.role = Some(role);
                        self.id = Some(identity);
                    },
                    None => {},
                },
            }
        } else if str_eq(name, "focusable") {
            match &attribute.value {
                AttributeValue::Bool(focusable) => {
                    self.focusable = *focusable;
                },
                _ => {},
            }
        } else if str_eq(name, "name") {
            match &attribute.value {
                AttributeValue::Text(text) => {
                    self.name = Some(text.clone());
                },
                _ => {},
            }
        } else if str_eq(name, "alt") {
            match &attribute.value {
                AttributeValue::Text(text) => {
                    self.alt = Some(text.clone());
                },
                _ => {},
            }
        }
    }

    /// Brings the state up to date with the attributes of the node, with a
    /// fresh identity at hand for a node that acquires accessibility
    /// semantics, and tells whether the state changed.
    pub fn update_with(&mut self, node_view: &NodeView, fresh: AccessibilityId) -> (changed: bool)
        ensures
            final(self)@ == updated(old(self)@, node_view@, fresh),
            changed == (final(self)@ != old(self)@),
    {
        let identity = match self.id {
            Some(id) => id,
            None => fresh,
        };
        let mut state = Accessibility::default();
        match &node_view.attributes {
            Some(attributes) => {
                let mut i: usize = 0;
                while i < attributes.len()
                    invariant
                        i <= attributes.len(),
                        state@ == with_attributes(
                            text_of(node_view.tag),
                            attribute_models(attributes@),
                            identity,
                            i as nat,
                        ),
                    decreases attributes.len() - i,
                {
                    state.read_attribute(&node_view.tag, &attributes[i], identity);
                    i += 1;
                }
            },
            None => {},
        }
        let changed = !state.same_as(self);
        *self = state;
        changed
    }

    /// Brings the state up to date with the attributes of the node and
    /// tells whether it changed. A node that has an identity keeps it for
    /// as long as it has accessibility semantics; for a node that has none
    /// a new random identity is drawn, which it is given if it acquires
    /// them.
    pub fn update(&mut self, node_view: &NodeView) -> (changed: bool)
        ensures
            old(self)@.id matches Some(id) ==> final(self)@ == updated(
                old(self)@,
                node_view@,
                id,
            ),
            old(self)@.id is None ==> exists|fresh: AccessibilityId|
                is_random_uuid(fresh.0) && #[trigger] updated(old(self)@, node_view@, fresh)
                    == final(self)@,
            old(self)@.id is Some ==> final(self)@.id is None || final(self)@.id == old(self)@.id,
            changed == (final(self)@ != old(self)@),
    {
        let fresh = match self.id {
            Some(id) => {
                proof {
                    lemma_identity_is_kept(self@, node_view@, id);
                }
                id
            },
            None => new_accessibility_id(),
        };
        self.update_with(node_view, fresh)
    }
}

} // verus!
