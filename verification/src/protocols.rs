//! The protocols that accounts can be made for.

use vstd::prelude::*;
use crate::lifecycle::ProtocolKind;
use crate::model::{
    CredentialField, CredentialFieldView, FieldValue, FieldValueView, Protocol, ProtocolView,
};
use crate::views::opt_view;

verus! {

/// Lets a signature name `AuthField` of oshatori. Nothing is known of what
/// such a value holds.
#[verifier::external_type_specification]
#[verifier::external_body]
pub struct ExOshatoriAuthField(oshatori::AuthField);

/// Takes a credentials field of oshatori over, value by value. Nothing is
/// claimed of the result here: see `mock_protocol` and `sockchat_protocol`.
#[verifier::external_body]
fn field_in(field: oshatori::AuthField) -> CredentialField {
    let value = match field.value {
        oshatori::FieldValue::Text(text) => FieldValue::Text(text),
        oshatori::FieldValue::Password(text) => FieldValue::Password(text),
        oshatori::FieldValue::Group(fields) => {
            FieldValue::Group(fields.into_iter().map(field_in).collect())
        },
    };
    CredentialField { name: field.name, display: field.display, value, required: field.required }
}

/// A credentials field that holds a text or a password that is not given
/// yet.
pub open spec fn blank_field(
    name: Seq<char>,
    display: Seq<char>,
    secret: bool,
    required: bool,
) -> CredentialFieldView {
    CredentialFieldView {
        name,
        display: Some(display),
        value: if secret {
            FieldValueView::Password(None)
        } else {
            FieldValueView::Text(None)
        },
        required,
    }
}

/// The mock protocol: it asks for no credentials.
pub open spec fn mock_protocol_view() -> ProtocolView {
    ProtocolView { name: "Mock"@, auth: None }
}

/// The sockchat protocol: it asks for the server, a token and the user's
/// id, and takes the places of pictures and assets.
pub open spec fn sockchat_protocol_view() -> ProtocolView {
    ProtocolView {
        name: "sockchat"@,
        auth: Some(
            seq![
                blank_field("sockchat_url"@, "Sockchat URL"@, false, true),
                blank_field("token"@, "User token"@, true, true),
                blank_field("uid"@, "UID"@, false, true),
                blank_field(
                    "pfp_url"@,
                    "Profile picture URL using {uid} to specify the user"@,
                    false,
                    false,
                ),
                blank_field("asset_api"@, "URL of the Mami-compatible asset API"@, false, false),
            ],
        ),
    }
}

/// Calls `protocol_spec` of oshatori on a new `MockConnection`. The
/// contract claims what the source of oshatori shows: the name is "Mock",
/// and no credentials are asked for.
#[verifier::external_body]
fn mock_protocol() -> (p: Protocol)
    ensures
        p@ == mock_protocol_view(),
{
    let spec = oshatori::Connection::protocol_spec(&oshatori::connection::MockConnection::new());
    Protocol {
        name: spec.name,
        auth: spec.auth.map(|fields| fields.into_iter().map(field_in).collect()),
    }
}

/// Calls `protocol_spec` of oshatori on a new `SockchatConnection`. The
/// contract claims what the source of oshatori shows: the name is
/// "sockchat", and five fields are asked for, none of them filled in.
#[verifier::external_body]
fn sockchat_protocol() -> (p: Protocol)
    ensures
        p@ == sockchat_protocol_view(),
{
    let spec = oshatori::Connection::protocol_spec(&oshatori::connection::SockchatConnection::new());
    Protocol {
        name: spec.name,
        auth: spec.auth.map(|fields| fields.into_iter().map(field_in).collect()),
    }
}

/// What a kind of connection asks for, as far as the kind is supported.
pub open spec fn protocol_view_of(kind: ProtocolKind) -> Option<ProtocolView> {
    match kind {
        ProtocolKind::Mock => Some(mock_protocol_view()),
        ProtocolKind::Sockchat => Some(sockchat_protocol_view()),
        ProtocolKind::Unsupported => None,
    }
}

/// The protocol of a kind of connection.
pub fn protocol_of(kind: ProtocolKind) -> (r: Option<Protocol>)
    ensures
        opt_view(r) == protocol_view_of(kind),
{
    match kind {
        ProtocolKind::Mock => Some(mock_protocol()),
        ProtocolKind::Sockchat => Some(sockchat_protocol()),
        ProtocolKind::Unsupported => None,
    }
}

/// The protocols that accounts can be made for: mock and sockchat.
pub fn available_protocols() -> (r: Vec<Protocol>)
    ensures
        r@.len() == 2,
        r@[0]@ == mock_protocol_view(),
        r@[1]@ == sockchat_protocol_view(),
{
    let mut r: Vec<Protocol> = Vec::new();
    r.push(mock_protocol());
    r.push(sockchat_protocol());
    r
}

} // verus!
