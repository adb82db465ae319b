//! The requests sent to the daemon's REST interface: where each goes and what
//! its body holds.

use vstd::prelude::*;
use crate::json::{
    JsonField, JsonFieldView, JsonValue, JsonValueView, fields_view, request_body, request_text,
    texts_view,
};
use crate::secret::{MAX_BASE64_INPUT, base64_text, password_field};

verus! {

/// A call of the daemon's REST interface.
#[derive(Clone, Copy, Debug, PartialEq, Eq, Structural)]
pub enum Endpoint {
    GenSeed,
    InitWallet,
    UnlockWallet,
    ChangePassword,
}

impl Endpoint {
    /// The path of each call.
    pub open spec fn path_spec(self) -> Seq<char> {
        match self {
            Endpoint::GenSeed => "/v1/genseed"@,
            Endpoint::InitWallet => "/v1/initwallet"@,
            Endpoint::UnlockWallet => "/v1/unlockwallet"@,
            Endpoint::ChangePassword => "/v1/changepassword"@,
        }
    }

    /// The path of this call on the daemon's REST port.
    pub fn path(&self) -> (p: String)
        ensures
            p@ == self.path_spec(),
    {
        match self {
            Endpoint::GenSeed => "/v1/genseed".to_owned(),
            Endpoint::InitWallet => "/v1/initwallet".to_owned(),
            Endpoint::UnlockWallet => "/v1/unlockwallet".to_owned(),
            Endpoint::ChangePassword => "/v1/changepassword".to_owned(),
        }
    }
}

/// The member `key` with the base64 form of `secret` as its value.
pub open spec fn secret_member(key: Seq<char>, secret: Seq<u8>) -> JsonFieldView {
    JsonFieldView { key, value: JsonValueView::Text(base64_text(secret)) }
}

/// The members of an unlock request: the secret, and the address-recovery
/// window, which is null where none is configured.
pub open spec fn unlock_fields(secret: Seq<u8>, window: Option<u64>) -> Seq<JsonFieldView> {
    seq![
        secret_member("wallet_password"@, secret),
        JsonFieldView {
            key: "recovery_window"@,
            value: match window {
                Some(n) => JsonValueView::Number(n),
                None => JsonValueView::Null,
            },
        },
    ]
}

/// The members of a password change: the secret in use and the one to use.
pub open spec fn rotation_fields(current: Seq<u8>, new: Seq<u8>) -> Seq<JsonFieldView> {
    seq![secret_member("current_password"@, current), secret_member("new_password"@, new)]
}

/// The members of a wallet initialisation: the secret and the seed phrase.
pub open spec fn init_fields(password: Seq<u8>, words: Seq<Seq<char>>) -> Seq<JsonFieldView> {
    seq![
        secret_member("wallet_password"@, password),
        JsonFieldView { key: "cipher_seed_mnemonic"@, value: JsonValueView::List(words) },
    ]
}

/// The body of an unlock request.
pub open spec fn unlock_text(secret: Seq<u8>, window: Option<u64>) -> Option<Seq<char>> {
    request_text(unlock_fields(secret, window))
}

/// The body of a password change.
pub open spec fn rotation_text(current: Seq<u8>, new: Seq<u8>) -> Option<Seq<char>> {
    request_text(rotation_fields(current, new))
}

/// The body of a wallet initialisation.
pub open spec fn init_text(password: Seq<u8>, words: Seq<Seq<char>>) -> Option<Seq<char>> {
    request_text(init_fields(password, words))
}

fn secret_field(key: &str, secret: &[u8]) -> (f: JsonField)
    requires
        secret.len() <= MAX_BASE64_INPUT,
    ensures
        f@ == secret_member(key@, secret@),
{
    JsonField { key: key.to_owned(), value: JsonValue::Text(password_field(secret)) }
}

/// The body of an unlock request, or `None` where it cannot be encoded.
pub fn unlock_body(secret: &[u8], window: Option<u64>) -> (body: Option<String>)
    requires
        secret.len() <= MAX_BASE64_INPUT,
    ensures
        match body {
            Some(b) => unlock_text(secret@, window) == Some(b@),
            None => unlock_text(secret@, window) is None,
        },
{
    let mut fields: Vec<JsonField> = Vec::new();
    fields.push(secret_field("wallet_password", secret));
    fields.push(
        JsonField {
            key: "recovery_window".to_owned(),
            value: match window {
                Some(n) => JsonValue::Number(n),
                None => JsonValue::Null,
            },
        },
    );
    assert(fields_view(fields@) =~= unlock_fields(secret@, window));
    request_body(&fields)
}

/// The body of a password change, or `None` where it cannot be encoded.
pub fn rotation_body(current: &[u8], new: &[u8]) -> (body: Option<String>)
    requires
        current.len() <= MAX_BASE64_INPUT,
        new.len() <= MAX_BASE64_INPUT,
    ensures
        match body {
            Some(b) => rotation_text(current@, new@) == Some(b@),
            None => rotation_text(current@, new@) is None,
        },
{
    let mut fields: Vec<JsonField> = Vec::new();
    fields.push(secret_field("current_password", current));
    fields.push(secret_field("new_password", new));
    assert(fields_view(fields@) =~= rotation_fields(current@, new@));
    request_body(&fields)
}

/// The body of a wallet initialisation, or `None` where it cannot be encoded.
pub fn init_body(password: &[u8], words: Vec<String>) -> (body: Option<String>)
    requires
        password.len() <= MAX_BASE64_INPUT,
    ensures
        match body {
            Some(b) => init_text(password@, texts_view(words@)) == Some(b@),
            None => init_text(password@, texts_view(words@)) is None,
        },
{
    let ghost phrase = texts_view(words@);
    let mut fields: Vec<JsonField> = Vec::new();
    fields.push(secret_field("wallet_password", password));
    fields.push(
        JsonField { key: "cipher_seed_mnemonic".to_owned(), value: JsonValue::List(words) },
    );
    assert(fields_view(fields@) =~= init_fields(password@, phrase));
    request_body(&fields)
}

} // verus!
