//! Query strings and form bodies, written by `url_search_params`.

use crate::text::{pair, pair_texts};
use vstd::prelude::*;

verus! {

/// A character that a parameter name may be made of: a lower-case ASCII
/// letter or an underscore.
pub open spec fn plain_char(c: char) -> bool {
    ('a' <= c && c <= 'z') || c == '_'
}

/// A parameter name made of lower-case ASCII letters and underscores only.
pub open spec fn plain_key(key: Seq<char>) -> bool {
    forall|i: int| 0 <= i < key.len() ==> plain_char(#[trigger] key[i])
}

/// Every parameter of `pairs` has a plain name.
pub open spec fn plain_keys(pairs: Seq<(String, String)>) -> bool {
    forall|i: int| 0 <= i < pairs.len() ==> plain_key((#[trigger] pairs[i]).0@)
}

/// The query string that `url_search_params` writes for a list of
/// parameters.
pub uninterp spec fn search_params_text(pairs: Seq<(Seq<char>, Seq<char>)>) -> Seq<char>;

/// Calls `url_search_params::build_url_search_params` on the map made of
/// `pairs`. That function percent-encodes each name and value, joins them
/// with `=`, orders the entries by their lower-case form and joins them with
/// `&`. The order of entries whose lower-case forms are equal is that of the
/// hash map, so the contract names the result only for plain names: two
/// different plain names never give entries with the same lower-case form.
#[verifier::external_body]
pub(crate) fn build_search_params(pairs: &Vec<(String, String)>) -> (text: String)
    requires
        plain_keys(pairs@),
    ensures
        text@ == search_params_text(pair_texts(pairs@)),
{
    url_search_params::build_url_search_params(pairs.iter().cloned().collect())
}

/// Whether `key` is made of lower-case ASCII letters and underscores only.
pub fn is_plain_key(key: &str) -> (r: bool)
    ensures
        r == plain_key(key@),
{
    let chars = crate::text::chars_of(key);
    let mut i: usize = 0;
    while i < chars.len()
        invariant
            i <= chars.len(),
            chars@ == key@,
            forall|j: int| 0 <= j < i ==> plain_char(#[trigger] chars@[j]),
        decreases chars.len() - i,
    {
        let c = chars[i];
        if !(('a' <= c && c <= 'z') || c == '_') {
            assert(!plain_char(key@[i as int]));
            return false;
        }
        i += 1;
    }
    true
}

/// The query string for `pairs`, where every name is plain; `None` where one
/// is not.
pub fn search_params(pairs: &Vec<(String, String)>) -> (r: Option<String>)
    ensures
        r is Some <==> plain_keys(pairs@),
        r matches Some(text) ==> text@ == search_params_text(pair_texts(pairs@)),
{
    let mut i: usize = 0;
    while i < pairs.len()
        invariant
            i <= pairs.len(),
            forall|j: int| 0 <= j < i ==> plain_key((#[trigger] pairs@[j]).0@),
        decreases pairs.len() - i,
    {
        if !is_plain_key(pairs[i].0.as_str()) {
            return None;
        }
        i += 1;
    }
    Some(build_search_params(pairs))
}

/// The parameters that ask for an access token in exchange for a refresh
/// token.
pub open spec fn refresh_grant_fields(refresh: Seq<char>) -> Seq<(Seq<char>, Seq<char>)> {
    seq![("grant_type"@, "refresh_token"@), ("refresh_token"@, refresh)]
}

/// The parameters that ask for tokens in exchange for an authorization code.
pub open spec fn code_grant_fields(code: Seq<char>) -> Seq<(Seq<char>, Seq<char>)> {
    seq![
        ("grant_type"@, "authorization_code"@),
        ("code"@, code),
        ("redirect_uri"@, crate::http::REDIRECT_URI@),
    ]
}

/// The parameters that ask the user to grant the application its scope.
pub open spec fn consent_fields(client_id: Seq<char>) -> Seq<(Seq<char>, Seq<char>)> {
    seq![
        ("response_type"@, "code"@),
        ("client_id"@, client_id),
        ("scope"@, crate::http::SCOPE@),
        ("redirect_uri"@, crate::http::REDIRECT_URI@),
    ]
}

/// The parameter names that the requests of this library use are plain.
pub proof fn lemma_plain_names()
    ensures
        plain_key("grant_type"@),
        plain_key("refresh_token"@),
        plain_key("code"@),
        plain_key("redirect_uri"@),
        plain_key("response_type"@),
        plain_key("client_id"@),
        plain_key("scope"@),
{
    reveal_strlit("grant_type");
    reveal_strlit("refresh_token");
    reveal_strlit("code");
    reveal_strlit("redirect_uri");
    reveal_strlit("response_type");
    reveal_strlit("client_id");
    reveal_strlit("scope");
}

/// The form body that asks for an access token in exchange for a refresh
/// token.
pub fn refresh_grant_form(refresh: &str) -> (body: String)
    ensures
        body@ == search_params_text(refresh_grant_fields(refresh@)),
{
    let mut pairs: Vec<(String, String)> = Vec::new();
    pairs.push(pair("grant_type", "refresh_token"));
    pairs.push(pair("refresh_token", refresh));
    proof {
        lemma_plain_names();
        assert(pair_texts(pairs@) =~= refresh_grant_fields(refresh@));
    }
    build_search_params(&pairs)
}

/// The form body that asks for tokens in exchange for an authorization code.
pub fn code_grant_form(code: &str) -> (body: String)
    ensures
        body@ == search_params_text(code_grant_fields(code@)),
{
    let mut pairs: Vec<(String, String)> = Vec::new();
    pairs.push(pair("grant_type", "authorization_code"));
    pairs.push(pair("code", code));
    pairs.push(pair("redirect_uri", crate::http::REDIRECT_URI));
    proof {
        lemma_plain_names();
        assert(pair_texts(pairs@) =~= code_grant_fields(code@));
    }
    build_search_params(&pairs)
}

/// The query string that asks the user to grant the application its scope.
pub fn consent_query(client_id: &str) -> (query: String)
    ensures
        query@ == search_params_text(consent_fields(client_id@)),
{
    let mut pairs: Vec<(String, String)> = Vec::new();
    pairs.push(pair("response_type", "code"));
    pairs.push(pair("client_id", client_id));
    pairs.push(pair("scope", crate::http::SCOPE));
    pairs.push(pair("redirect_uri", crate::http::REDIRECT_URI));
    proof {
        lemma_plain_names();
        assert(pair_texts(pairs@) =~= consent_fields(client_id@));
    }
    build_search_params(&pairs)
}

} // verus!
