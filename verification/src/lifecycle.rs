//! What an account says of the connection to open: the kind of protocol
//! and the user.

use vstd::prelude::*;
use crate::model::{
    field_view, fields_view, CredentialField, CredentialFieldView, FieldValue, FieldValueView,
};
use crate::text::{contains_str, has_infix, is_text, lowercase_of, to_lowercase};
use crate::views::opt_view;

verus! {

/// The kinds of connection that can be opened.
#[derive(Clone, Copy, Debug, PartialEq, Eq, Structural)]
pub enum ProtocolKind {
    Mock,
    Sockchat,
    Unsupported,
}

/// The kind of connection that a protocol name in lower case stands for:
/// a name with "mock" in it is the mock protocol, another one with
/// "sockchat" in it is sockchat, and no other name is supported.
pub open spec fn kind_of_lowered(lowered: Seq<char>) -> ProtocolKind {
    if has_infix(lowered, "mock"@) {
        ProtocolKind::Mock
    } else if has_infix(lowered, "sockchat"@) {
        ProtocolKind::Sockchat
    } else {
        ProtocolKind::Unsupported
    }
}

/// The kind of connection that a protocol name stands for, whatever the
/// case of its letters.
pub open spec fn kind_of_protocol(name: Seq<char>) -> ProtocolKind {
    kind_of_lowered(lowercase_of(name))
}

/// The kind of connection that a protocol name in lower case stands for.
pub fn classify_lowered(lowered: &str) -> (kind: ProtocolKind)
    ensures
        kind == kind_of_lowered(lowered@),
{
    if contains_str(lowered, "mock") {
        ProtocolKind::Mock
    } else if contains_str(lowered, "sockchat") {
        ProtocolKind::Sockchat
    } else {
        ProtocolKind::Unsupported
    }
}

/// The kind of connection that a protocol name stands for.
pub fn classify_protocol(name: &str) -> (kind: ProtocolKind)
    ensures
        kind == kind_of_protocol(name@),
{
    let lowered = to_lowercase(name);
    classify_lowered(lowered.as_str())
}

/// The user id that a credentials field names: the text of a text field
/// called "uid".
pub open spec fn named_user_id(field: CredentialFieldView) -> Option<Seq<char>> {
    if field.name == "uid"@ {
        match field.value {
            FieldValueView::Text(Some(id)) => Some(id),
            _ => None,
        }
    } else {
        None
    }
}

/// The user id that credentials name: that of the last field that names
/// one. Fields inside a group are not looked at.
pub open spec fn declared_user_id(auth: Seq<CredentialFieldView>) -> Option<Seq<char>>
    decreases auth.len(),
{
    if auth.len() == 0 {
        None
    } else if named_user_id(auth.last()) is Some {
        named_user_id(auth.last())
    } else {
        declared_user_id(auth.drop_last())
    }
}

/// The user id that the credentials name, if they name one.
pub fn find_user_id(auth: &Vec<CredentialField>) -> (r: Option<String>)
    ensures
        opt_view(r) == declared_user_id(fields_view(*auth)),
{
    let ghost all = fields_view(*auth);
    let mut found: Option<String> = None;
    let mut i: usize = 0;
    while i < auth.len()
        invariant
            i <= auth.len(),
            all == fields_view(*auth),
            opt_view(found) == declared_user_id(all.take(i as int)),
        decreases auth.len() - i,
    {
        proof {
            assert(all.take(i + 1).drop_last() =~= all.take(i as int));
            assert(all.take(i + 1).last() == field_view(auth@[i as int]));
        }
        if is_text(&auth[i].name, "uid") {
            match &auth[i].value {
                FieldValue::Text(Some(id)) => {
                    found = Some(id.clone());
                },
                _ => {},
            }
        }
        i += 1;
    }
    proof {
        assert(all.take(i as int) =~= all);
    }
    found
}

} // verus!
