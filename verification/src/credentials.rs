//! The stored credential: the application's identity and the refresh token,
//! each kept as a JSON document of its own. The store keeps one account.

use crate::json::{
    first_member, json_document, json_record_text, record_view, Json, JsonView,
};
use crate::text::{pair, pair_texts};
use vstd::prelude::*;

verus! {

/// The document that keeps the refresh token.
#[derive(Debug, Clone, PartialEq, Eq)]
pub struct AuthFile {
    pub refresh: String,
}

/// The document that keeps the refresh token, under its shorter name.
pub type Auth = AuthFile;

/// The document that keeps the application's client id and secret.
#[derive(Debug, Clone, PartialEq, Eq)]
pub struct Constants {
    pub id: String,
    pub secret: String,
}

/// The account profile, as far as it is read: the display name.
#[derive(Debug, Clone, PartialEq, Eq)]
pub struct User {
    pub display_name: String,
}

/// All that is stored for one account.
#[derive(Debug, Clone, PartialEq, Eq)]
pub struct Credential {
    pub client_id: String,
    pub client_secret: String,
    pub refresh_token: String,
}

/// The client id and secret as mathematics.
pub struct ConstantsView {
    pub id: Seq<char>,
    pub secret: Seq<char>,
}

/// A stored credential as mathematics.
pub struct CredentialView {
    pub client_id: Seq<char>,
    pub client_secret: Seq<char>,
    pub refresh_token: Seq<char>,
}

impl View for AuthFile {
    type V = Seq<char>;

    open spec fn view(&self) -> Seq<char> {
        self.refresh@
    }
}

impl DeepView for AuthFile {
    type V = Seq<char>;

    open spec fn deep_view(&self) -> Seq<char> {
        self@
    }
}

impl View for Constants {
    type V = ConstantsView;

    open spec fn view(&self) -> ConstantsView {
        ConstantsView { id: self.id@, secret: self.secret@ }
    }
}

impl DeepView for Constants {
    type V = ConstantsView;

    open spec fn deep_view(&self) -> ConstantsView {
        self@
    }
}

impl View for User {
    type V = Seq<char>;

    open spec fn view(&self) -> Seq<char> {
        self.display_name@
    }
}

impl DeepView for User {
    type V = Seq<char>;

    open spec fn deep_view(&self) -> Seq<char> {
        self@
    }
}

impl View for Credential {
    type V = CredentialView;

    open spec fn view(&self) -> CredentialView {
        CredentialView {
            client_id: self.client_id@,
            client_secret: self.client_secret@,
            refresh_token: self.refresh_token@,
        }
    }
}

impl DeepView for Credential {
    type V = CredentialView;

    open spec fn deep_view(&self) -> CredentialView {
        self@
    }
}

/// The refresh token that a document keeps under `refresh`.
pub open spec fn auth_of(doc: JsonView) -> Option<Seq<char>> {
    doc.text_member("refresh"@)
}

/// The fields written for a refresh token.
pub open spec fn auth_fields(refresh: Seq<char>) -> Seq<(Seq<char>, Seq<char>)> {
    seq![("refresh"@, refresh)]
}

/// The client id and secret that a document keeps under `id` and `secret`.
pub open spec fn constants_of(doc: JsonView) -> Option<ConstantsView> {
    match (doc.text_member("id"@), doc.text_member("secret"@)) {
        (Some(id), Some(secret)) => Some(ConstantsView { id, secret }),
        _ => None,
    }
}

/// The fields written for a client id and secret.
pub open spec fn constants_fields(constants: ConstantsView) -> Seq<(Seq<char>, Seq<char>)> {
    seq![("id"@, constants.id), ("secret"@, constants.secret)]
}

/// The display name that a profile document keeps under `display_name`.
pub open spec fn user_of(doc: JsonView) -> Option<Seq<char>> {
    doc.text_member("display_name"@)
}

/// What `read` finds in the document of a text, where the text is JSON.
pub open spec fn read_text<T>(text: Seq<char>, read: spec_fn(JsonView) -> Option<T>) -> Option<T> {
    match json_document(text) {
        Some(doc) => read(doc),
        None => None,
    }
}

impl AuthFile {
    /// Reads the refresh token out of its document.
    pub fn from_json(doc: &Json) -> (r: Option<AuthFile>)
        ensures
            r.deep_view() == auth_of(doc@),
    {
        match doc.text_member_of("refresh") {
            Some(refresh) => Some(AuthFile { refresh: refresh.to_owned() }),
            None => None,
        }
    }

    /// Reads the refresh token out of the text of its document.
    pub fn from_text(text: &str) -> (r: Option<AuthFile>)
        ensures
            r.deep_view() == read_text(text@, |doc: JsonView| auth_of(doc)),
    {
        match Json::parse(text) {
            Some(doc) => AuthFile::from_json(&doc),
            None => None,
        }
    }

    /// The fields of the document, in the order they are written.
    pub fn fields(&self) -> (fields: Vec<(String, String)>)
        ensures
            pair_texts(fields@) == auth_fields(self@),
    {
        let mut fields: Vec<(String, String)> = Vec::new();
        fields.push(pair("refresh", self.refresh.as_str()));
        assert(pair_texts(fields@) =~= auth_fields(self@));
        fields
    }

    /// The document that keeps this refresh token.
    pub fn to_json(&self) -> (doc: Json)
        ensures
            doc@ == record_view(auth_fields(self@)),
    {
        Json::record(&self.fields())
    }

    /// The text of the document that keeps this refresh token. The text is
    /// always there.
    pub fn to_text(&self) -> (r: Option<String>)
        ensures
            r.deep_view() == Some(json_record_text(auth_fields(self@))),
    {
        Json::write_record(&self.fields())
    }
}

impl Constants {
    /// Reads the client id and secret out of their document.
    pub fn from_json(doc: &Json) -> (r: Option<Constants>)
        ensures
            r.deep_view() == constants_of(doc@),
    {
        let id = match doc.text_member_of("id") {
            Some(id) => id.to_owned(),
            None => { return None; },
        };
        match doc.text_member_of("secret") {
            Some(secret) => Some(Constants { id, secret: secret.to_owned() }),
            None => None,
        }
    }

    /// Reads the client id and secret out of the text of their document.
    pub fn from_text(text: &str) -> (r: Option<Constants>)
        ensures
            r.deep_view() == read_text(text@, |doc: JsonView| constants_of(doc)),
    {
        match Json::parse(text) {
            Some(doc) => Constants::from_json(&doc),
            None => None,
        }
    }

    /// The fields of the document, in the order they are written.
    pub fn fields(&self) -> (fields: Vec<(String, String)>)
        ensures
            pair_texts(fields@) == constants_fields(self@),
    {
        let mut fields: Vec<(String, String)> = Vec::new();
        fields.push(pair("id", self.id.as_str()));
        fields.push(pair("secret", self.secret.as_str()));
        assert(pair_texts(fields@) =~= constants_fields(self@));
        fields
    }

    /// The document that keeps this client id and secret.
    pub fn to_json(&self) -> (doc: Json)
        ensures
            doc@ == record_view(constants_fields(self@)),
    {
        Json::record(&self.fields())
    }

    /// The text of the document that keeps this client id and secret. The
    /// text is always there.
    pub fn to_text(&self) -> (r: Option<String>)
        ensures
            r.deep_view() == Some(json_record_text(constants_fields(self@))),
    {
        Json::write_record(&self.fields())
    }
}

impl User {
    /// Reads the display name out of a profile document.
    pub fn from_json(doc: &Json) -> (r: Option<User>)
        ensures
            r.deep_view() == user_of(doc@),
    {
        match doc.text_member_of("display_name") {
            Some(name) => Some(User { display_name: name.to_owned() }),
            None => None,
        }
    }
}

impl Credential {
    /// The credential made of the two stored documents.
    pub fn from_files(constants: Constants, auth: AuthFile) -> (credential: Credential)
        ensures
            credential@ == (CredentialView {
                client_id: constants@.id,
                client_secret: constants@.secret,
                refresh_token: auth@,
            }),
    {
        Credential {
            client_id: constants.id,
            client_secret: constants.secret,
            refresh_token: auth.refresh,
        }
    }

    /// The document that keeps the refresh token of this credential.
    pub fn auth_file(&self) -> (auth: AuthFile)
        ensures
            auth@ == self@.refresh_token,
    {
        AuthFile { refresh: self.refresh_token.clone() }
    }

    /// The document that keeps the client id and secret of this credential.
    pub fn constants(&self) -> (constants: Constants)
        ensures
            constants@ == (ConstantsView { id: self@.client_id, secret: self@.client_secret }),
    {
        Constants { id: self.client_id.clone(), secret: self.client_secret.clone() }
    }
}

/// Writing a refresh token into its document and reading the document back
/// gives the same refresh token.
pub proof fn lemma_auth_round_trip(refresh: Seq<char>)
    ensures
        auth_of(record_view(auth_fields(refresh))) == Some(refresh),
{
    let members = record_view(auth_fields(refresh))->Record_0;
    assert(members[0] == ("refresh"@, JsonView::Text(refresh)));
}

/// Writing a client id and secret into their document and reading the
/// document back gives the same id and secret.
pub proof fn lemma_constants_round_trip(constants: ConstantsView)
    ensures
        constants_of(record_view(constants_fields(constants))) == Some(constants),
{
    reveal_strlit("id");
    reveal_strlit("secret");
    let members = record_view(constants_fields(constants))->Record_0;
    assert(members[0] == ("id"@, JsonView::Text(constants.id)));
    assert(members[1] == ("secret"@, JsonView::Text(constants.secret)));
    assert(members.drop_first()[0] == members[1]);
    assert("id"@.len() != "secret"@.len());
    assert(first_member(members.drop_first(), "secret"@) == Some(members[1].1));
    assert(first_member(members, "secret"@) == Some(members[1].1));
    assert(first_member(members, "id"@) == Some(members[0].1));
}

/// Persisting a credential as its two documents and reading them back gives
/// the same client id, client secret and refresh token.
pub proof fn lemma_credential_round_trip(credential: CredentialView)
    ensures
        constants_of(
            record_view(
                constants_fields(
                    ConstantsView { id: credential.client_id, secret: credential.client_secret },
                ),
            ),
        ) == Some(ConstantsView { id: credential.client_id, secret: credential.client_secret }),
        auth_of(record_view(auth_fields(credential.refresh_token))) == Some(
            credential.refresh_token,
        ),
{
    lemma_auth_round_trip(credential.refresh_token);
    lemma_constants_round_trip(
        ConstantsView { id: credential.client_id, secret: credential.client_secret },
    );
}

} // verus!
