//! Who acts on a workflow, as scripts see it and as step records keep it.

use crate::entities::{MintingAuthority, Tenant};
use crate::ids::{EntityId, Identity};
use crate::json::{json_text, push_field, JsonValue, JsonView};
use vstd::prelude::*;

verus! {

/// Authenticated caller category for workflow operations.
#[derive(Clone, Copy, Debug, PartialEq, Eq, Structural)]
pub enum SubjectKind {
    /// Persistent principal identity.
    Principal,
    /// Ephemeral subject minted by a minting authority.
    Ephemeral,
}

impl SubjectKind {
    /// The kind's name in JSON.
    pub open spec fn spec_name(self) -> Seq<char> {
        match self {
            SubjectKind::Principal => "principal"@,
            SubjectKind::Ephemeral => "ephemeral"@,
        }
    }

    /// The kind's name in JSON.
    pub fn name(self) -> (r: &'static str)
        ensures
            r@ == self.spec_name(),
    {
        match self {
            SubjectKind::Principal => "principal",
            SubjectKind::Ephemeral => "ephemeral",
        }
    }
}

/// Caller context threaded through engine operations.
#[derive(Debug)]
pub struct SubjectContext {
    /// Caller kind.
    pub kind: SubjectKind,
    /// Opaque caller identifier.
    pub id: String,
    /// Tenant owning the request scope.
    pub tenant_id: EntityId<Tenant>,
    /// Minting authority, required for ephemeral subjects.
    pub authority_id: Option<EntityId<MintingAuthority>>,
    /// Free-form claims from the authenticated context.
    pub claims: JsonValue,
}

impl Clone for SubjectContext {
    fn clone(&self) -> (r: SubjectContext)
        ensures
            r.kind == self.kind,
            r.id == self.id,
            r.tenant_id == self.tenant_id,
            r.authority_id == self.authority_id,
            r.claims@ == self.claims@,
    {
        SubjectContext {
            kind: self.kind,
            id: self.id.clone(),
            tenant_id: self.tenant_id,
            authority_id: self.authority_id,
            claims: self.claims.clone(),
        }
    }
}

impl SubjectContext {
    /// The caller as scripts see it: the tenant and the authority by their
    /// public identifiers, and the claims as they are.
    pub open spec fn script_value(self) -> JsonView {
        JsonView::Object(
            map![
                "kind"@ => JsonView::String(self.kind.spec_name()),
                "id"@ => JsonView::String(self.id@),
                "tenant_id"@ => JsonView::String(self.tenant_id.spec_public().text()),
                "authority_id"@ => match self.authority_id {
                    None => JsonView::Null,
                    Some(authority) => JsonView::String(authority.spec_public().text()),
                },
                "claims"@ => self.claims@,
            ],
        )
    }

    /// Serialize subject context for script arguments. This never fails.
    pub fn to_script_value(&self) -> (r: Result<JsonValue, serde_json::Error>)
        ensures
            r is Ok,
            r->Ok_0@ == self.script_value(),
    {
        Ok(self.to_script_json())
    }

    /// The caller as scripts see it.
    pub(crate) fn to_script_json(&self) -> (r: JsonValue)
        ensures
            r@ == self.script_value(),
    {
        let mut fields: Vec<(String, JsonValue)> = Vec::new();
        push_field(&mut fields, "kind", json_text(self.kind.name()));
        push_field(&mut fields, "id", JsonValue::String(self.id.clone()));
        push_field(
            &mut fields,
            "tenant_id",
            JsonValue::String(self.tenant_id.public().to_text()),
        );
        let authority = match self.authority_id {
            None => JsonValue::Null,
            Some(authority) => JsonValue::String(authority.public().to_text()),
        };
        push_field(&mut fields, "authority_id", authority);
        push_field(&mut fields, "claims", self.claims.clone());
        JsonValue::Object(fields)
    }

    /// The caller as step records keep it.
    pub open spec fn audit_value(self) -> JsonView {
        (StepRecordSubject {
            kind: self.kind,
            id: self.id,
            authority_id: self.authority_id,
        }).record_value()
    }

    /// Convert to the persisted step-record subject shape.
    pub fn to_step_record_subject(&self) -> (r: StepRecordSubject)
        ensures
            r == (StepRecordSubject {
                kind: self.kind,
                id: self.id,
                authority_id: self.authority_id,
            }),
    {
        StepRecordSubject {
            kind: self.kind,
            id: self.id.clone(),
            authority_id: self.authority_id,
        }
    }
}

/// Persisted subject content for a step record.
///
/// This intentionally excludes `claims` and tenant fields.
#[derive(Debug, PartialEq, Eq)]
pub struct StepRecordSubject {
    /// Caller kind.
    pub kind: SubjectKind,
    /// Opaque caller identifier.
    pub id: String,
    /// Minting authority for ephemeral subjects.
    pub authority_id: Option<EntityId<MintingAuthority>>,
}

impl Clone for StepRecordSubject {
    fn clone(&self) -> (r: StepRecordSubject)
        ensures
            r == *self,
    {
        StepRecordSubject { kind: self.kind, id: self.id.clone(), authority_id: self.authority_id }
    }
}

/// An identity as JSON.
pub open spec fn identity_value(identity: Identity) -> JsonView {
    JsonView::Object(
        map![
            "internal"@ => JsonView::String(identity.internal.text()),
            "public"@ => JsonView::String(identity.public.text()),
        ],
    )
}

fn identity_json(identity: Identity) -> (r: JsonValue)
    ensures
        r@ == identity_value(identity),
{
    let mut fields: Vec<(String, JsonValue)> = Vec::new();
    push_field(&mut fields, "internal", JsonValue::String(identity.internal.to_text()));
    push_field(&mut fields, "public", JsonValue::String(identity.public.to_text()));
    JsonValue::Object(fields)
}

impl StepRecordSubject {
    /// The subject as a step record keeps it.
    pub open spec fn record_value(self) -> JsonView {
        JsonView::Object(
            map![
                "kind"@ => JsonView::String(self.kind.spec_name()),
                "id"@ => JsonView::String(self.id@),
                "authority_id"@ => match self.authority_id {
                    None => JsonView::Null,
                    Some(authority) => identity_value(authority.identity()),
                },
            ],
        )
    }

    /// The subject as a step record keeps it.
    pub fn to_record_value(&self) -> (r: JsonValue)
        ensures
            r@ == self.record_value(),
    {
        let mut fields: Vec<(String, JsonValue)> = Vec::new();
        push_field(&mut fields, "kind", json_text(self.kind.name()));
        push_field(&mut fields, "id", JsonValue::String(self.id.clone()));
        let authority = match self.authority_id {
            None => JsonValue::Null,
            Some(authority) => identity_json(authority.untyped()),
        };
        push_field(&mut fields, "authority_id", authority);
        JsonValue::Object(fields)
    }
}

} // verus!
