//! The login: a password opens a session, a code sent to the user answers
//! the challenge, and the access token that comes back is exchanged for the
//! token that statements are asked with.

use super::{FlashClient, FlashClientView};
use crate::error::Error;
use crate::http::{
    bearer, bearer_value, json_string, pair, push_json_string, Method, Pair, PairView, Request,
    RequestView,
};
use crate::text::push_text;
use vstd::prelude::*;

verus! {

/// Where the token for statements is obtained.
pub const FLASH_WEB_AUTH_URL: &'static str = "https://flashos-entrance.us.flashapp.services/v1/auth";

/// Where the password and the code are sent.
pub const AUTH_URL: &'static str = "https://hros-auth.flashapp.services";

/// The name under which this client is known where the password is sent.
pub const FLASH_CLIENT_ID: &'static str = "4r4ki1jqohppg2dko3uf7rvq13";

/// How far a login has come, every token as text.
pub enum AuthView {
    NotStarted,
    Initialized(Seq<char>),
    Authenticated(Seq<char>),
}

/// How far a login has come. It only moves forward: from `NotStarted` to
/// `Initialized` with the token of the session, and from there to
/// `Authenticated` with the token that statements are asked with.
pub enum AuthState {
    NotStarted,
    Initialized(String),
    Authenticated(FlashAuthentication),
}

/// What answers the code: the access token and what belongs to it.
#[derive(Debug, Clone, PartialEq, Eq)]
pub struct AuthenticationResult {
    pub access_token: String,
    pub expires_in: i64,
    pub token_type: String,
    pub refresh_token: String,
    pub id_token: String,
}

/// The token that statements are asked with.
#[derive(Debug, Clone, PartialEq, Eq)]
pub struct FlashAuthentication {
    pub token: String,
}

impl View for AuthState {
    type V = AuthView;

    open spec fn view(&self) -> AuthView {
        match self {
            AuthState::NotStarted => AuthView::NotStarted,
            AuthState::Initialized(session) => AuthView::Initialized(session@),
            AuthState::Authenticated(auth) => AuthView::Authenticated(auth.token@),
        }
    }
}

/// The header that says which operation a request to `AUTH_URL` asks for.
pub open spec fn target_header(operation: Seq<char>) -> PairView {
    PairView {
        name: "X-Amz-Target"@,
        value: "AWSCognitoIdentityProviderService."@ + operation,
    }
}

/// The request that opens a session with user name and password.
pub open spec fn initiate_request_view(username: Seq<char>, password: Seq<char>) -> RequestView {
    RequestView {
        method: Method::Post,
        url: AUTH_URL@,
        query: Seq::empty(),
        headers: seq![target_header("InitiateAuth"@)],
        body: Some(
            "{\"AuthFlow\":\"USER_PASSWORD_AUTH\",\"AuthParameters\":{\"PASSWORD\":"@ + json_string(
                password,
            ) + ",\"USERNAME\":"@ + json_string(username) + "},\"ClientId\":"@ + json_string(
                FLASH_CLIENT_ID@,
            ) + ",\"ClientMetadata\":{\"preferredMfa\":\"SMS_MFA\"}}"@,
        ),
    }
}

/// The request that answers the challenge of a session with the code that
/// the user received.
pub open spec fn challenge_request_view(
    username: Seq<char>,
    session: Seq<char>,
    second_factor: Seq<char>,
) -> RequestView {
    RequestView {
        method: Method::Post,
        url: AUTH_URL@,
        query: Seq::empty(),
        headers: seq![target_header("RespondToAuthChallenge"@)],
        body: Some(
            "{\"ChallengeName\":\"SMS_MFA\",\"ChallengeResponses\":{\"SMS_MFA_CODE\":"@
                + json_string(second_factor) + ",\"USERNAME\":"@ + json_string(username)
                + "},\"ClientId\":"@ + json_string(FLASH_CLIENT_ID@) + ",\"Session\":"@
                + json_string(session) + "}"@,
        ),
    }
}

/// The request that exchanges an access token for the token that
/// statements are asked with.
pub open spec fn sign_in_request_view(
    company_id: Seq<char>,
    employee_id: Seq<char>,
    access_token: Seq<char>,
) -> RequestView {
    RequestView {
        method: Method::Post,
        url: FLASH_WEB_AUTH_URL@ + "/trpc/signInEmployee"@,
        query: Seq::empty(),
        headers: seq![PairView { name: "Authorization"@, value: bearer(access_token) }],
        body: Some(
            "{\"companyId\":"@ + json_string(company_id) + ",\"employeeId\":"@ + json_string(
                employee_id,
            ) + "}"@,
        ),
    }
}

impl FlashClientView {
    /// What the first step of a login sends: the request with the password
    /// where the login has not started, and nothing where it has.
    pub open spec fn initiate_auth(self, password: Seq<char>) -> Option<RequestView> {
        match self.auth {
            AuthView::NotStarted => Some(initiate_request_view(self.username, password)),
            _ => None,
        }
    }

    /// The client after the answer to the first step. A session token moves
    /// a login that has not started to `Initialized`; a failure, or an answer
    /// to a login that is further on, changes nothing.
    pub open spec fn session_started(self, answer: Result<Seq<char>, Error>) -> FlashClientView {
        match (self.auth, answer) {
            (AuthView::NotStarted, Ok(session)) => FlashClientView {
                auth: AuthView::Initialized(session),
                ..self
            },
            _ => self,
        }
    }

    /// What the second step of a login sends: the answer to the challenge
    /// where a session is open, nothing where the login is finished, and an
    /// error where it has not started.
    pub open spec fn finish_login(self, second_factor: Seq<char>) -> Result<
        Option<RequestView>,
        Error,
    > {
        match self.auth {
            AuthView::NotStarted => Err(Error::AuthNotStarted),
            AuthView::Initialized(session) => Ok(
                Some(challenge_request_view(self.username, session, second_factor)),
            ),
            AuthView::Authenticated(_) => Ok(None),
        }
    }

    /// The client after the second step has been answered, by the token that
    /// statements are asked with or by a failure of either of its two
    /// requests. The token moves an open session to `Authenticated`; a
    /// failure leaves the session open.
    pub open spec fn login_finished(self, answer: Result<Seq<char>, Error>) -> FlashClientView {
        match (self.auth, answer) {
            (AuthView::Initialized(_), Ok(token)) => FlashClientView {
                auth: AuthView::Authenticated(token),
                ..self
            },
            _ => self,
        }
    }
}

/// The answer without what it carried.
pub open spec fn emptied<T>(answer: Result<T, Error>) -> Result<(), Error> {
    match answer {
        Ok(_) => Ok(()),
        Err(error) => Err(error),
    }
}

fn target(operation: &str) -> (header: Pair)
    ensures
        header@ == target_header(operation@),
{
    let mut value = String::new();
    push_text(&mut value, "AWSCognitoIdentityProviderService.");
    push_text(&mut value, operation);
    let header = pair("X-Amz-Target", value);
    assert(header@.value =~= target_header(operation@).value);
    header
}

impl FlashClient {
    /// The first step of a login: the request that opens a session, for the
    /// caller to send. Where the login has started already there is nothing
    /// to send.
    pub fn initiate_auth(&self, password: &str) -> (request: Option<Request>)
        ensures
            request is Some <==> self@.initiate_auth(password@) is Some,
            request matches Some(r) ==> self@.initiate_auth(password@) == Some(r@),
    {
        match &self.auth {
            AuthState::NotStarted => {},
            _ => { return None; },
        }
        let mut body = String::new();
        push_text(
            &mut body,
            "{\"AuthFlow\":\"USER_PASSWORD_AUTH\",\"AuthParameters\":{\"PASSWORD\":",
        );
        push_json_string(&mut body, password);
        push_text(&mut body, ",\"USERNAME\":");
        push_json_string(&mut body, self.username.as_str());
        push_text(&mut body, "},\"ClientId\":");
        push_json_string(&mut body, FLASH_CLIENT_ID);
        push_text(&mut body, ",\"ClientMetadata\":{\"preferredMfa\":\"SMS_MFA\"}}");
        let mut headers: Vec<Pair> = Vec::new();
        headers.push(target("InitiateAuth"));
        let request = Request {
            method: Method::Post,
            url: AUTH_URL.to_owned(),
            query: Vec::new(),
            headers,
            body: Some(body),
        };
        proof {
            let wanted = initiate_request_view(self@.username, password@);
            assert(request@.query =~= wanted.query);
            assert(request@.headers =~= wanted.headers);
            assert(request@.body->0 =~= wanted.body->0);
        }
        Some(request)
    }

    /// Takes the answer to the first step: the token of the session, or why
    /// there is none.
    pub fn session_started(&mut self, answer: Result<String, Error>) -> (outcome: Result<(), Error>)
        ensures
            final(self)@ == old(self)@.session_started(
                match answer {
                    Ok(session) => Ok(session@),
                    Err(error) => Err(error),
                },
            ),
            outcome == emptied(answer),
    {
        match answer {
            Ok(session) => {
                match &self.auth {
                    AuthState::NotStarted => {
                        self.auth = AuthState::Initialized(session);
                    },
                    _ => {},
                }
                Ok(())
            },
            Err(error) => Err(error),
        }
    }

    /// The second step of a login: the request that answers the challenge
    /// with the code, for the caller to send. Where the login is finished
    /// already there is nothing to send.
    pub fn finish_login(&self, second_factor: &str) -> (request: Result<Option<Request>, Error>)
        ensures
            ({
                let wanted = self@.finish_login(second_factor@);
                &&& request matches Err(e) ==> wanted == Err::<Option<RequestView>, Error>(e)
                &&& request matches Ok(None) ==> wanted == Ok::<Option<RequestView>, Error>(None)
                &&& request matches Ok(Some(r)) ==> wanted == Ok::<Option<RequestView>, Error>(
                    Some(r@),
                )
            }),
    {
        let session = match &self.auth {
            AuthState::NotStarted => { return Err(Error::AuthNotStarted); },
            AuthState::Initialized(session) => session,
            AuthState::Authenticated(_) => { return Ok(None); },
        };
        let mut body = String::new();
        push_text(
            &mut body,
            "{\"ChallengeName\":\"SMS_MFA\",\"ChallengeResponses\":{\"SMS_MFA_CODE\":",
        );
        push_json_string(&mut body, second_factor);
        push_text(&mut body, ",\"USERNAME\":");
        push_json_string(&mut body, self.username.as_str());
        push_text(&mut body, "},\"ClientId\":");
        push_json_string(&mut body, FLASH_CLIENT_ID);
        push_text(&mut body, ",\"Session\":");
        push_json_string(&mut body, session.as_str());
        push_text(&mut body, "}");
        let mut headers: Vec<Pair> = Vec::new();
        headers.push(target("RespondToAuthChallenge"));
        let request = Request {
            method: Method::Post,
            url: AUTH_URL.to_owned(),
            query: Vec::new(),
            headers,
            body: Some(body),
        };
        proof {
            let wanted = challenge_request_view(self@.username, session@, second_factor@);
            assert(request@.query =~= wanted.query);
            assert(request@.headers =~= wanted.headers);
            assert(request@.body->0 =~= wanted.body->0);
        }
        Ok(Some(request))
    }

    /// The request that follows the answer to the challenge: it exchanges
    /// the access token for the token that statements are asked with.
    pub fn sign_in_employee(&self, result: &AuthenticationResult) -> (request: Request)
        ensures
            request@ == sign_in_request_view(
                self@.company_id,
                self@.employee_id,
                result.access_token@,
            ),
    {
        let mut url = String::new();
        push_text(&mut url, FLASH_WEB_AUTH_URL);
        push_text(&mut url, "/trpc/signInEmployee");
        let mut body = String::new();
        push_text(&mut body, "{\"companyId\":");
        push_json_string(&mut body, self.company_id.as_str());
        push_text(&mut body, ",\"employeeId\":");
        push_json_string(&mut body, self.employee_id.as_str());
        push_text(&mut body, "}");
        let mut headers: Vec<Pair> = Vec::new();
        headers.push(pair("Authorization", bearer_value(result.access_token.as_str())));
        let request = Request {
            method: Method::Post,
            url,
            query: Vec::new(),
            headers,
            body: Some(body),
        };
        proof {
            let wanted = sign_in_request_view(
                self@.company_id,
                self@.employee_id,
                result.access_token@,
            );
            assert(request@.url =~= wanted.url);
            assert(request@.query =~= wanted.query);
            assert(request@.headers =~= wanted.headers);
            assert(request@.body->0 =~= wanted.body->0);
        }
        request
    }

    /// Takes the answer to the second step: the token that statements are
    /// asked with, or why either of the step's two requests failed.
    pub fn login_finished(&mut self, answer: Result<FlashAuthentication, Error>) -> (outcome:
        Result<(), Error>)
        ensures
            final(self)@ == old(self)@.login_finished(
                match answer {
                    Ok(auth) => Ok(auth.token@),
                    Err(error) => Err(error),
                },
            ),
            outcome == emptied(answer),
    {
        match answer {
            Ok(auth) => {
                match &self.auth {
                    AuthState::Initialized(_) => {
                        self.auth = AuthState::Authenticated(auth);
                    },
                    _ => {},
                }
                Ok(())
            },
            Err(error) => Err(error),
        }
    }
}

/// The second step of a login fails where the first has not been taken.
pub proof fn law_finish_before_initiate(client: FlashClientView, second_factor: Seq<char>)
    requires
        client.auth is NotStarted,
    ensures
        client.finish_login(second_factor) == Err::<Option<RequestView>, Error>(
            Error::AuthNotStarted,
        ),
{
}

/// The first step of a login sends its request once: after the session
/// token has come, taking the step again sends nothing and changes nothing.
pub proof fn law_initiate_once(
    client: FlashClientView,
    password: Seq<char>,
    session: Seq<char>,
    later: Result<Seq<char>, Error>,
)
    requires
        client.auth is NotStarted,
    ensures
        client.initiate_auth(password) is Some,
        client.session_started(Ok(session)).auth == AuthView::Initialized(session),
        client.session_started(Ok(session)).initiate_auth(password) is None,
        client.session_started(Ok(session)).session_started(later) == client.session_started(
            Ok(session),
        ),
{
}

/// A first step that fails leaves the login where it was.
pub proof fn law_failed_initiate_changes_nothing(client: FlashClientView, error: Error)
    ensures
        client.session_started(Err(error)) == client,
{
}

/// A second step that fails leaves the session open: the step can be taken
/// again with another code, and sends the answer to the same session.
pub proof fn law_failed_code_can_be_retried(
    client: FlashClientView,
    session: Seq<char>,
    error: Error,
    password: Seq<char>,
    second_factor: Seq<char>,
)
    requires
        client.auth == AuthView::Initialized(session),
    ensures
        client.login_finished(Err(error)) == client,
        client.login_finished(Err(error)).initiate_auth(password) is None,
        client.login_finished(Err(error)).finish_login(second_factor) == Ok::<
            Option<RequestView>,
            Error,
        >(Some(challenge_request_view(client.username, session, second_factor))),
{
}

/// Once the login is finished, both steps send nothing and no answer
/// changes anything.
pub proof fn law_authenticated_is_final(
    client: FlashClientView,
    text: Seq<char>,
    answer: Result<Seq<char>, Error>,
)
    requires
        client.auth is Authenticated,
    ensures
        client.initiate_auth(text) is None,
        client.finish_login(text) == Ok::<Option<RequestView>, Error>(None),
        client.session_started(answer) == client,
        client.login_finished(answer) == client,
{
}

} // verus!
