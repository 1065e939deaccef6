//! The redirect-code flow: the user signs in with a browser, which is sent
//! back with a code that is traded for a token.
use crate::authentication::error::InternalError;
use crate::authentication::microsoft::{
    spec_form_request, token_url, MicrosoftAuthorization, MicrosoftAuthorizationType,
    MICROSOFT_LOGIN_URL, MICROSOFT_SCOPE, TOKEN_PATH,
};
use crate::authentication::transport::HttpRequest;
use crate::authentication::utils::query_string_builder::{
    spec_build, spec_takes_params, spec_url_with_params, QueryString,
};
use crate::authentication::AuthenticationClient;
use vstd::prelude::*;
use vstd::std_specs::convert::FromSpecImpl;
use vstd::string::*;

verus! {

/// The path of the page where the user signs in, below
/// [`MICROSOFT_LOGIN_URL`].
pub const AUTHORIZE_PATH: &'static str = "/oauth2/v2.0/authorize";

/// Asking with a code that the sign-in page handed to `redirect_url`.
#[derive(Debug, Clone)]
pub struct GrantCode {
    pub redirect_url: String,
}

impl From<String> for GrantCode {
    fn from(value: String) -> (grant: Self) {
        Self { redirect_url: value }
    }
}

impl FromSpecImpl<String> for GrantCode {
    open spec fn obeys_from_spec() -> bool {
        true
    }

    open spec fn from_spec(value: String) -> Self {
        GrantCode { redirect_url: value }
    }
}

impl GrantCode {
    /// A request builder for the redirect-code flow, with the URL to which
    /// the user's browser is sent back.
    pub fn new(redirect_url: String, api_client: AuthenticationClient) -> (authorization:
        MicrosoftAuthorization<GrantCode>)
        ensures
            authorization.client == api_client,
            authorization.internal.redirect_url == redirect_url,
    {
        MicrosoftAuthorization { client: api_client, internal: GrantCode::from(redirect_url) }
    }
}

impl MicrosoftAuthorizationType for GrantCode {

}

/// The entries that the sign-in page is called with.
pub open spec fn spec_login_params(client_id: Seq<char>, redirect_url: Seq<char>) -> Seq<
    (Seq<char>, Seq<char>),
> {
    seq![
        ("client_id"@, client_id),
        ("response_type"@, "code"@),
        ("redirect_uri"@, redirect_url),
        ("scope"@, MICROSOFT_SCOPE@),
    ]
}

/// The entries of the form that trades a code for a token.
pub open spec fn spec_code_form(
    client_id: Seq<char>,
    access_code: Seq<char>,
    redirect_url: Seq<char>,
) -> Seq<(Seq<char>, Seq<char>)> {
    seq![
        ("client_id"@, client_id),
        ("code"@, access_code),
        ("scope"@, MICROSOFT_SCOPE@),
        ("grant_type"@, "authorization_code"@),
        ("redirect_uri"@, redirect_url),
    ]
}

/// The address of the sign-in page is short and holds no `#`.
pub proof fn lemma_authorize_url_takes_params()
    ensures
        spec_takes_params(MICROSOFT_LOGIN_URL@ + AUTHORIZE_PATH@),
{
    reveal_strlit("https://login.microsoftonline.com/consumers");
    reveal_strlit("/oauth2/v2.0/authorize");
}

impl MicrosoftAuthorization<GrantCode> {
    /// The URL to send the user's browser to. It is fixed by the client's
    /// settings and the redirect URL, and nothing is sent to get it: the
    /// address of the sign-in page with the entries of
    /// [`spec_login_params`] in its query.
    pub fn generate_login_url(&self) -> (url: Result<String, InternalError>)
        ensures
            match url {
                Ok(text) => spec_url_with_params(
                    MICROSOFT_LOGIN_URL@ + AUTHORIZE_PATH@,
                    spec_login_params(
                        self.client.auth_properties.azura_microsoft_client@,
                        self.internal.redirect_url@,
                    ),
                ) == Some(text@),
                Err(error) => error is URLParse && spec_url_with_params(
                    MICROSOFT_LOGIN_URL@ + AUTHORIZE_PATH@,
                    spec_login_params(
                        self.client.auth_properties.azura_microsoft_client@,
                        self.internal.redirect_url@,
                    ),
                ) is None,
            },
    {
        let query_string = QueryString::new_with_capacity(4).add_str(
            "client_id",
            self.client.auth_properties.azura_microsoft_client.as_str(),
        ).add_str("response_type", "code").add_str(
            "redirect_uri",
            self.internal.redirect_url.as_str(),
        ).add_str("scope", MICROSOFT_SCOPE);
        assert(query_string@ =~= spec_login_params(
            self.client.auth_properties.azura_microsoft_client@,
            self.internal.redirect_url@,
        ));
        let page = String::from_str(MICROSOFT_LOGIN_URL).concat(AUTHORIZE_PATH);
        proof {
            lemma_authorize_url_takes_params();
        }
        match query_string.build_with_url(page.as_str()) {
            Ok(text) => Ok(text),
            Err(error) => Err(InternalError::URLParse(error)),
        }
    }

    /// The request that trades `access_code`, as the sign-in page handed it
    /// to the redirect URL, for a token. A code is good for one request.
    pub fn get_authorization_token(&self, access_code: String) -> (request: HttpRequest)
        ensures
            request@ == spec_form_request(
                MICROSOFT_LOGIN_URL@ + TOKEN_PATH@,
                spec_build(
                    spec_code_form(
                        self.client.auth_properties.azura_microsoft_client@,
                        access_code@,
                        self.internal.redirect_url@,
                    ),
                ),
            ),
    {
        let query_string = QueryString::new_with_capacity(5).add_str(
            "client_id",
            self.client.auth_properties.azura_microsoft_client.as_str(),
        ).add_str("code", access_code.as_str()).add_str("scope", MICROSOFT_SCOPE).add_str(
            "grant_type",
            "authorization_code",
        ).add_str("redirect_uri", self.internal.redirect_url.as_str());
        assert(query_string@ =~= spec_code_form(
            self.client.auth_properties.azura_microsoft_client@,
            access_code@,
            self.internal.redirect_url@,
        ));
        self.make_request(token_url(), query_string.build())
    }
}

} // verus!
