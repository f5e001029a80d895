//! What the store keeps: entities, their revisions, and how access to them
//! can fail.

use crate::ids::{Identity, Sha256, Uuid};
use crate::text::{decimal, decimal_text, join2, join4};
use vstd::prelude::*;

verus! {

/// Storage failures.
#[derive(Clone, Debug, PartialEq, Eq)]
pub enum StoreError {
    /// An entity was found with another kind than was asked for.
    KindMismatch {
        /// The kind asked for.
        expected: Uuid,
        /// The kind found.
        actual: Uuid,
    },
    /// Stored bytes do not decode.
    Decode {
        /// What is wrong with the bytes.
        detail: String,
    },
    /// A stored identifier has the wrong version.
    IdKind {
        /// What is wrong with the identifier.
        detail: String,
    },
    /// A stored identity pair has the wrong versions.
    IdentityKind {
        /// What is wrong with the pair.
        detail: String,
    },
    /// A scalar has another type than its attribute.
    ScalarTypeMismatch {
        /// The attribute.
        attribute_name: String,
        /// What is wrong with the scalar.
        detail: String,
    },
    /// Another writer appended that revision first.
    RevisionConflict {
        /// The entity.
        entity_id: Uuid,
        /// The sequence number already taken.
        revision_seq: u64,
    },
    /// A fresh identity is already taken.
    IdentityCollision {
        /// The identifier that is taken.
        uuid: Uuid,
    },
    /// The entity written to does not exist.
    EntityNotFound {
        /// The entity.
        entity_id: Uuid,
    },
    /// The backend failed.
    Backend {
        /// What the backend reported.
        message: String,
        /// Whether the backend says that a retry may succeed.
        retryable: bool,
    },
}

impl StoreError {
    /// Lost races may be tried again, and what the backend says may be.
    pub open spec fn retryable(self) -> bool {
        match self {
            StoreError::RevisionConflict { .. } => true,
            StoreError::IdentityCollision { .. } => true,
            StoreError::Backend { retryable, .. } => retryable,
            _ => false,
        }
    }

    /// Whether this error is potentially recoverable by retry.
    pub fn is_retryable(&self) -> (r: bool)
        ensures
            r == self.retryable(),
    {
        match self {
            StoreError::RevisionConflict { .. } | StoreError::IdentityCollision { .. } => true,
            StoreError::Backend { retryable, .. } => *retryable,
            StoreError::KindMismatch { .. }
            | StoreError::Decode { .. }
            | StoreError::IdKind { .. }
            | StoreError::IdentityKind { .. }
            | StoreError::ScalarTypeMismatch { .. }
            | StoreError::EntityNotFound { .. } => false,
        }
    }

    /// The error's message.
    pub open spec fn spec_message(self) -> Seq<char> {
        match self {
            StoreError::KindMismatch { expected, actual } => "entity kind mismatch: expected "@
                + expected.text() + ", found "@ + actual.text(),
            StoreError::Decode { detail } => "content decode failed: "@ + detail@,
            StoreError::IdKind { detail } => "UUID version mismatch in storage: "@ + detail@,
            StoreError::IdentityKind { detail } => "identity version mismatch in storage: "@
                + detail@,
            StoreError::ScalarTypeMismatch { attribute_name, detail } =>
                "scalar type mismatch for attribute "@ + attribute_name@ + ": "@ + detail@,
            StoreError::RevisionConflict { entity_id, revision_seq } =>
                "revision conflict: entity "@ + entity_id.text() + ", seq "@ + decimal_text(
                    revision_seq as nat,
                ) + " already exists"@,
            StoreError::IdentityCollision { uuid } => "identity collision: "@ + uuid.text(),
            StoreError::EntityNotFound { entity_id } => "entity not found: "@ + entity_id.text(),
            StoreError::Backend { message, .. } => "backend error: "@ + message@,
        }
    }

    /// The error's message.
    pub fn message(&self) -> (r: String)
        ensures
            r@ == self.spec_message(),
    {
        match self {
            StoreError::KindMismatch { expected, actual } => join4(
                "entity kind mismatch: expected ",
                expected.to_text().as_str(),
                ", found ",
                actual.to_text().as_str(),
            ),
            StoreError::Decode { detail } => join2("content decode failed: ", detail.as_str()),
            StoreError::IdKind { detail } => join2(
                "UUID version mismatch in storage: ",
                detail.as_str(),
            ),
            StoreError::IdentityKind { detail } => join2(
                "identity version mismatch in storage: ",
                detail.as_str(),
            ),
            StoreError::ScalarTypeMismatch { attribute_name, detail } => join4(
                "scalar type mismatch for attribute ",
                attribute_name.as_str(),
                ": ",
                detail.as_str(),
            ),
            StoreError::RevisionConflict { entity_id, revision_seq } => {
                let mut text: String = join4(
                    "revision conflict: entity ",
                    entity_id.to_text().as_str(),
                    ", seq ",
                    decimal(*revision_seq).as_str(),
                );
                text.append(" already exists");
                text
            },
            StoreError::IdentityCollision { uuid } => join2(
                "identity collision: ",
                uuid.to_text().as_str(),
            ),
            StoreError::EntityNotFound { entity_id } => join2(
                "entity not found: ",
                entity_id.to_text().as_str(),
            ),
            StoreError::Backend { message, .. } => join2("backend error: ", message.as_str()),
        }
    }
}

/// An entity as registered: its identity and its kind.
#[derive(Clone, Copy, Debug, PartialEq, Eq, Structural)]
pub struct EntityRow {
    /// The entity's identity.
    pub identity: Identity,
    /// The entity's kind.
    pub kind: Uuid,
}

/// A reference from one entity's revision to another entity.
#[derive(Clone, Copy, Debug, PartialEq, Eq, Structural)]
pub struct EntityRefValue {
    /// The entity referred to, by its internal identifier.
    pub target_entity_id: Uuid,
    /// The revision referred to, where the reference names one.
    pub target_revision_seq: Option<u64>,
}

/// The value of a scalar attribute.
#[derive(Clone, Copy, Debug, PartialEq, Eq, Structural)]
pub enum ScalarValue {
    /// A truth value.
    Bool(bool),
    /// A 64-bit signed integer.
    I64(i64),
}

/// What attributes say: of two with one name the later counts.
pub open spec fn attributes<T>(attrs: Seq<(String, T)>) -> Map<Seq<char>, T>
    decreases attrs.len(),
{
    if attrs.len() == 0 {
        Map::empty()
    } else {
        attributes(attrs.drop_last()).insert(attrs.last().0@, attrs.last().1)
    }
}

/// The attribute `name`, where there is one.
pub open spec fn attribute<T>(attrs: Map<Seq<char>, T>, name: Seq<char>) -> Option<T> {
    if attrs.contains_key(name) {
        Some(attrs[name])
    } else {
        None
    }
}

/// Looks up the attribute `name`.
fn lookup<T: Copy>(attrs: &Vec<(String, T)>, name: &str) -> (r: Option<T>)
    ensures
        r == attribute(attributes(attrs@), name@),
{
    let wanted: String = name.to_owned();
    let mut i: usize = attrs.len();
    assert(attrs@.take(attrs@.len() as int) =~= attrs@);
    while i > 0
        invariant
            wanted@ == name@,
            i <= attrs@.len(),
            attribute(attributes(attrs@.take(i as int)), name@) == attribute(
                attributes(attrs@),
                name@,
            ),
        decreases i,
    {
        assert(attrs@.take(i as int).drop_last() =~= attrs@.take(i - 1));
        i = i - 1;
        if attrs[i].0 == wanted {
            return Some(attrs[i].1);
        }
    }
    None
}

/// What a revision says.
pub struct RevisionView {
    /// Digests of the content that attributes hold.
    pub content: Map<Seq<char>, Sha256>,
    /// The entities that attributes refer to.
    pub entity: Map<Seq<char>, EntityRefValue>,
    /// The scalars that attributes hold.
    pub scalar: Map<Seq<char>, ScalarValue>,
}

/// One revision of an entity, as read.
#[derive(Clone, Debug)]
pub struct RevisionRow {
    /// The revision's place in the entity's log.
    pub revision_seq: u64,
    /// Digests of the content that attributes hold.
    pub content_attrs: Vec<(String, Sha256)>,
    /// The entities that attributes refer to.
    pub entity_attrs: Vec<(String, EntityRefValue)>,
    /// The scalars that attributes hold.
    pub scalar_attrs: Vec<(String, ScalarValue)>,
}

impl View for RevisionRow {
    type V = RevisionView;

    open spec fn view(&self) -> RevisionView {
        RevisionView {
            content: attributes(self.content_attrs@),
            entity: attributes(self.entity_attrs@),
            scalar: attributes(self.scalar_attrs@),
        }
    }
}

impl RevisionView {
    /// The digest of the content that attribute `name` holds.
    pub open spec fn content_attr(self, name: Seq<char>) -> Option<Sha256> {
        attribute(self.content, name)
    }

    /// The entity that attribute `name` refers to.
    pub open spec fn entity_attr(self, name: Seq<char>) -> Option<EntityRefValue> {
        attribute(self.entity, name)
    }

    /// The scalar that attribute `name` holds.
    pub open spec fn scalar_attr(self, name: Seq<char>) -> Option<ScalarValue> {
        attribute(self.scalar, name)
    }
}

impl RevisionRow {
    /// The digest of the content that attribute `name` holds.
    pub fn content_attr(&self, name: &str) -> (r: Option<Sha256>)
        ensures
            r == self@.content_attr(name@),
    {
        lookup(&self.content_attrs, name)
    }

    /// The entity that attribute `name` refers to.
    pub fn entity_attr(&self, name: &str) -> (r: Option<EntityRefValue>)
        ensures
            r == self@.entity_attr(name@),
    {
        lookup(&self.entity_attrs, name)
    }

    /// The scalar that attribute `name` holds.
    pub fn scalar_attr(&self, name: &str) -> (r: Option<ScalarValue>)
        ensures
            r == self@.scalar_attr(name@),
    {
        lookup(&self.scalar_attrs, name)
    }
}

/// A revision to be appended to an entity's log.
#[derive(Clone, Debug)]
pub struct RevisionInput {
    /// Digests of the content that attributes hold.
    pub content_attrs: Vec<(String, Sha256)>,
    /// The entities that attributes refer to.
    pub entity_attrs: Vec<(String, EntityRefValue)>,
    /// The scalars that attributes hold.
    pub scalar_attrs: Vec<(String, ScalarValue)>,
}

impl View for RevisionInput {
    type V = RevisionView;

    open spec fn view(&self) -> RevisionView {
        RevisionView {
            content: attributes(self.content_attrs@),
            entity: attributes(self.entity_attrs@),
            scalar: attributes(self.scalar_attrs@),
        }
    }
}

impl RevisionInput {
    /// A revision without attributes.
    pub fn new() -> (r: RevisionInput)
        ensures
            r@ == (RevisionView {
                content: Map::empty(),
                entity: Map::empty(),
                scalar: Map::empty(),
            }),
    {
        RevisionInput {
            content_attrs: Vec::new(),
            entity_attrs: Vec::new(),
            scalar_attrs: Vec::new(),
        }
    }

    /// The same revision with content attribute `name`.
    pub fn with_content(self, name: &str, hash: Sha256) -> (r: RevisionInput)
        ensures
            r@ == (RevisionView { content: self@.content.insert(name@, hash), ..self@ }),
    {
        let mut attrs: Vec<(String, Sha256)> = self.content_attrs;
        let ghost before = attrs@;
        attrs.push((name.to_owned(), hash));
        assert(attrs@.drop_last() =~= before);
        RevisionInput {
            content_attrs: attrs,
            entity_attrs: self.entity_attrs,
            scalar_attrs: self.scalar_attrs,
        }
    }

    /// The same revision with entity attribute `name`.
    pub fn with_entity(self, name: &str, target: EntityRefValue) -> (r: RevisionInput)
        ensures
            r@ == (RevisionView { entity: self@.entity.insert(name@, target), ..self@ }),
    {
        let mut attrs: Vec<(String, EntityRefValue)> = self.entity_attrs;
        let ghost before = attrs@;
        attrs.push((name.to_owned(), target));
        assert(attrs@.drop_last() =~= before);
        RevisionInput {
            content_attrs: self.content_attrs,
            entity_attrs: attrs,
            scalar_attrs: self.scalar_attrs,
        }
    }

    /// The same revision with scalar attribute `name`.
    pub fn with_scalar(self, name: &str, value: ScalarValue) -> (r: RevisionInput)
        ensures
            r@ == (RevisionView { scalar: self@.scalar.insert(name@, value), ..self@ }),
    {
        let mut attrs: Vec<(String, ScalarValue)> = self.scalar_attrs;
        let ghost before = attrs@;
        attrs.push((name.to_owned(), value));
        assert(attrs@.drop_last() =~= before);
        RevisionInput {
            content_attrs: self.content_attrs,
            entity_attrs: self.entity_attrs,
            scalar_attrs: attrs,
        }
    }
}

} // verus!
