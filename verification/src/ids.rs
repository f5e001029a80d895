//! Identifiers of entities, and digests of content.

use crate::text::{decimal, decimal_text, join4, outcome};
use core::marker::PhantomData;
use vstd::arithmetic::power::pow;
use vstd::prelude::*;

verus! {

/// A 128-bit universally unique identifier.
#[derive(Clone, Copy, Debug, PartialEq, Eq, Structural)]
pub struct Uuid {
    /// The identifier's bits, the first printed digit the most significant.
    pub value: u128,
}

/// The lower-case hexadecimal digit for `d`.
pub open spec fn hex_digit(d: int) -> char {
    if d < 10 {
        (48 + d) as u8 as char
    } else {
        (87 + d) as u8 as char
    }
}

/// Digit `k` of 32 of a 128-bit number in hexadecimal, the most significant
/// first.
pub open spec fn uuid_digit(value: u128, k: int) -> char {
    hex_digit((value as int / pow(16, (31 - k) as nat)) % 16)
}

/// An identifier as text: 32 digits in groups of 8, 4, 4, 4 and 12, with
/// hyphens between.
pub open spec fn uuid_text(value: u128) -> Seq<char> {
    Seq::new(
        36,
        |i: int|
            if i == 8 || i == 13 || i == 18 || i == 23 {
                '-'
            } else if i < 8 {
                uuid_digit(value, i)
            } else if i < 13 {
                uuid_digit(value, i - 1)
            } else if i < 18 {
                uuid_digit(value, i - 2)
            } else if i < 23 {
                uuid_digit(value, i - 3)
            } else {
                uuid_digit(value, i - 4)
            },
    )
}

/// What parsing a text as an identifier gives: the identifier's bits, or the
/// message of the error.
pub uninterp spec fn uuid_parsed(text: Seq<char>) -> Result<u128, Seq<char>>;

/// `to_string` of a `uuid::Uuid`: its lower-case hyphenated form.
#[verifier::external_body]
fn format_uuid(value: u128) -> (r: String)
    ensures
        r@ == uuid_text(value),
{
    philharmonic_types::Uuid::from_u128(value).to_string()
}

/// `parse` of a text as a `uuid::Uuid`: the identifier, or the error's message.
/// The outcome hangs on the text alone, and the hyphenated form of an
/// identifier parses to that identifier.
#[verifier::external_body]
fn parse_uuid(text: &str) -> (r: Result<u128, String>)
    ensures
        outcome(r) == uuid_parsed(text@),
        forall|value: u128| text@ == #[trigger] uuid_text(value) ==> r is Ok && r->Ok_0 == value,
{
    match text.parse::<philharmonic_types::Uuid>() {
        Ok(uuid) => Ok(uuid.as_u128()),
        Err(error) => Err(error.to_string()),
    }
}

impl Uuid {
    /// The identifier with these bits.
    pub fn from_u128(value: u128) -> (r: Uuid)
        ensures
            r == (Uuid { value }),
    {
        Uuid { value }
    }

    /// The identifier's bits.
    pub fn as_u128(self) -> (r: u128)
        ensures
            r == self.value,
    {
        self.value
    }

    /// The version number that the identifier carries.
    pub open spec fn version(self) -> int {
        (self.value as int / 0x1000_0000_0000_0000_0000) % 16
    }

    /// The identifier's text.
    pub open spec fn text(self) -> Seq<char> {
        uuid_text(self.value)
    }

    /// What reading a text as an identifier gives: the identifier, or the
    /// message of the error.
    pub open spec fn parsed(text: Seq<char>) -> Result<Uuid, Seq<char>> {
        match uuid_parsed(text) {
            Ok(value) => Ok(Uuid { value }),
            Err(message) => Err(message),
        }
    }

    /// The identifier in its lower-case hyphenated form.
    pub fn to_text(self) -> (r: String)
        ensures
            r@ == self.text(),
    {
        format_uuid(self.value)
    }

    /// Reads an identifier from text.
    pub fn parse(text: &str) -> (r: Result<Uuid, String>)
        ensures
            outcome(r) == Uuid::parsed(text@),
            forall|id: Uuid| text@ == #[trigger] id.text() ==> r is Ok && r->Ok_0 == id,
    {
        match parse_uuid(text) {
            Ok(value) => Ok(Uuid { value }),
            Err(message) => Err(message),
        }
    }
}

/// The two identifiers of an entity, of whatever kind.
#[derive(Clone, Copy, Debug, PartialEq, Eq, Structural)]
pub struct Identity {
    /// Identifier used in storage; never shown to scripts.
    pub internal: Uuid,
    /// Identifier used in outside references.
    pub public: Uuid,
}

/// An identity's identifiers have the wrong versions for their roles.
#[derive(Clone, Copy, Debug, PartialEq, Eq, Structural)]
pub enum IdentityKindError {
    /// The internal identifier is not of version 7.
    Internal {
        /// The version that was wanted.
        expected: usize,
        /// The version that was found.
        actual: usize,
    },
    /// The public identifier is not of version 4.
    Public {
        /// The version that was wanted.
        expected: usize,
        /// The version that was found.
        actual: usize,
    },
}

impl IdentityKindError {
    /// The error's message.
    pub open spec fn spec_message(self) -> Seq<char> {
        match self {
            IdentityKindError::Internal { expected, actual } =>
                "internal ID is not UUIDv7: UUID version mismatch: expected v"@ + decimal_text(
                    expected as nat,
                ) + ", got v"@ + decimal_text(actual as nat),
            IdentityKindError::Public { expected, actual } =>
                "public ID is not UUIDv4: UUID version mismatch: expected v"@ + decimal_text(
                    expected as nat,
                ) + ", got v"@ + decimal_text(actual as nat),
        }
    }

    /// The error's message.
    pub fn message(self) -> (r: String)
        ensures
            r@ == self.spec_message(),
    {
        match self {
            IdentityKindError::Internal { expected, actual } => join4(
                "internal ID is not UUIDv7: UUID version mismatch: expected v",
                decimal(expected as u64).as_str(),
                ", got v",
                decimal(actual as u64).as_str(),
            ),
            IdentityKindError::Public { expected, actual } => join4(
                "public ID is not UUIDv4: UUID version mismatch: expected v",
                decimal(expected as u64).as_str(),
                ", got v",
                decimal(actual as u64).as_str(),
            ),
        }
    }
}

impl Identity {
    /// Whether the identifiers have the versions that an entity's have, and
    /// which of them does not; the internal one is looked at first.
    pub open spec fn versions(self) -> Result<(), IdentityKindError> {
        if self.internal.version() != 7 {
            Err(
                IdentityKindError::Internal {
                    expected: 7,
                    actual: self.internal.version() as usize,
                },
            )
        } else if self.public.version() != 4 {
            Err(
                IdentityKindError::Public { expected: 4, actual: self.public.version() as usize },
            )
        } else {
            Ok(())
        }
    }

    /// Takes the identity for that of an entity of kind `T`.
    pub fn typed<T>(self) -> (r: Result<EntityId<T>, IdentityKindError>)
        ensures
            self.versions() matches Err(error) ==> r is Err && r->Err_0 == error,
            self.versions() is Ok ==> r is Ok && r->Ok_0.identity() == self,
    {
        match check_identity(self) {
            Err(error) => Err(error),
            Ok(()) => Ok(EntityId { identity: self, kind: PhantomData }),
        }
    }
}

/// `philharmonic_types::Identity::typed`, which looks at the two version
/// numbers, the internal one first, and keeps the identifiers as they are. The
/// kind that it is called with has no part in the outcome.
#[verifier::external_body]
fn check_identity(identity: Identity) -> (r: Result<(), IdentityKindError>)
    ensures
        r == identity.versions(),
{
    let internal = philharmonic_types::Uuid::from_u128(identity.internal.value);
    let public = philharmonic_types::Uuid::from_u128(identity.public.value);
    let pair = philharmonic_types::Identity { internal, public };
    match pair.typed::<philharmonic_policy::EmbeddingDataset>() {
        Ok(_) => Ok(()),
        Err(philharmonic_types::IdentityKindError::Internal(e)) => {
            Err(IdentityKindError::Internal { expected: e.expected, actual: e.actual })
        },
        Err(philharmonic_types::IdentityKindError::Public(e)) => {
            Err(IdentityKindError::Public { expected: e.expected, actual: e.actual })
        },
    }
}

/// The identity of an entity of kind `T`.
#[derive(Debug, PartialEq, Eq)]
pub struct EntityId<T> {
    identity: Identity,
    kind: PhantomData<T>,
}

impl<T> Clone for EntityId<T> {
    fn clone(&self) -> (r: EntityId<T>)
        ensures
            r == *self,
    {
        *self
    }
}

impl<T> Copy for EntityId<T> {

}

impl<T> EntityId<T> {
    /// An entity's identifiers have the versions that their roles ask for.
    #[verifier::type_invariant]
    spec fn versions(self) -> bool {
        self.identity.versions() is Ok
    }

    /// The two identifiers.
    pub closed spec fn identity(self) -> Identity {
        self.identity
    }

    /// The identifier used in storage.
    pub open spec fn spec_internal(self) -> Uuid {
        self.identity().internal
    }

    /// The identifier used in outside references.
    pub open spec fn spec_public(self) -> Uuid {
        self.identity().public
    }

    /// The two identifiers, whatever the kind.
    pub fn untyped(self) -> (r: Identity)
        ensures
            r == self.identity(),
            r.versions() is Ok,
    {
        proof {
            use_type_invariant(&self);
        }
        self.identity
    }

    /// The identifier used in storage.
    pub fn internal(self) -> (r: Uuid)
        ensures
            r == self.spec_internal(),
    {
        self.identity.internal
    }

    /// The identifier used in outside references.
    pub fn public(self) -> (r: Uuid)
        ensures
            r == self.spec_public(),
    {
        self.identity.public
    }
}

/// A SHA-256 digest.
#[derive(Clone, Copy, Debug, PartialEq, Eq)]
pub struct Sha256 {
    /// The 32 bytes of the digest.
    pub bytes: [u8; 32],
}

/// The SHA-256 digest of some bytes.
pub uninterp spec fn sha256(bytes: Seq<u8>) -> Sha256;

/// `philharmonic_types::Sha256::of`: the digest, a function of the bytes alone.
#[verifier::external_body]
fn digest_bytes(bytes: &[u8]) -> (r: Sha256)
    ensures
        r == sha256(bytes@),
{
    Sha256 { bytes: *philharmonic_types::Sha256::of(bytes).as_bytes() }
}

/// Bytes as lower-case hexadecimal digits, two for each.
pub open spec fn hex_text(bytes: Seq<u8>) -> Seq<char> {
    Seq::new(
        2 * bytes.len(),
        |i: int|
            if i % 2 == 0 {
                hex_digit(bytes[i / 2] as int / 16)
            } else {
                hex_digit(bytes[i / 2] as int % 16)
            },
    )
}

/// `to_string` of a `philharmonic_types::Sha256`: its bytes as lower-case
/// hexadecimal digits.
#[verifier::external_body]
fn format_digest(hash: Sha256) -> (r: String)
    ensures
        r@ == hex_text(hash.bytes@),
{
    philharmonic_types::Sha256::from_bytes_unchecked(hash.bytes).to_string()
}

impl Sha256 {
    /// The digest's text.
    pub open spec fn text(self) -> Seq<char> {
        hex_text(self.bytes@)
    }

    /// The digest in hexadecimal.
    pub fn to_text(self) -> (r: String)
        ensures
            r@ == self.text(),
    {
        format_digest(self)
    }

    /// The digest of some bytes.
    pub fn of(bytes: &[u8]) -> (r: Sha256)
        ensures
            r == sha256(bytes@),
    {
        digest_bytes(bytes)
    }
}

} // verus!
