//! The provider Flash: a login in three steps, then one query for a
//! month's statement.

pub mod auth;
pub mod statement;

use self::auth::{AuthState, AuthView, FlashAuthentication};
use vstd::prelude::*;

verus! {

/// What the provider's servers are told that the client is.
pub const USER_AGENT: &'static str =
    "Mozilla/5.0 (X11; Linux x86_64; rv:135.0) Gecko/20100101 Firefox/135.0";

/// What a client is: who logs in, for which company and employee, and how
/// far the login has come.
pub struct FlashClientView {
    pub employee_id: Seq<char>,
    pub company_id: Seq<char>,
    pub username: Seq<char>,
    pub auth: AuthView,
}

/// A client of the provider. It makes the requests and takes the answers;
/// the caller sends the ones and brings the others. The password is not kept
/// here: the caller hands it over for the one request that carries it.
pub struct FlashClient {
    employee_id: String,
    company_id: String,
    username: String,
    auth: AuthState,
}

impl View for FlashClient {
    type V = FlashClientView;

    closed spec fn view(&self) -> FlashClientView {
        FlashClientView {
            employee_id: self.employee_id@,
            company_id: self.company_id@,
            username: self.username@,
            auth: self.auth@,
        }
    }
}

impl FlashClient {
    /// A client whose login has not started.
    pub fn new(username: String, company_id: String, employee_id: String) -> (client: Self)
        ensures
            client@ == (FlashClientView {
                employee_id: employee_id@,
                company_id: company_id@,
                username: username@,
                auth: AuthView::NotStarted,
            }),
    {
        FlashClient { username, auth: AuthState::NotStarted, company_id, employee_id }
    }

    /// A client that is logged in with a token obtained elsewhere. It has no
    /// user name, and needs none.
    pub fn auth_override(auth: FlashAuthentication, company_id: String, employee_id: String) -> (client:
        Self)
        ensures
            client@ == (FlashClientView {
                employee_id: employee_id@,
                company_id: company_id@,
                username: Seq::empty(),
                auth: AuthView::Authenticated(auth.token@),
            }),
    {
        FlashClient {
            username: String::new(),
            auth: AuthState::Authenticated(auth),
            company_id,
            employee_id,
        }
    }

    /// The company whose card it is.
    pub fn company_id(&self) -> (company_id: &String)
        ensures
            company_id@ == self@.company_id,
    {
        &self.company_id
    }

    /// The employee who holds the card.
    pub fn employee_id(&self) -> (employee_id: &String)
        ensures
            employee_id@ == self@.employee_id,
    {
        &self.employee_id
    }

    /// Who logs in.
    pub fn username(&self) -> (username: &String)
        ensures
            username@ == self@.username,
    {
        &self.username
    }

    /// How far the login has come.
    pub fn auth(&self) -> (auth: &AuthState)
        ensures
            auth@ == self@.auth,
    {
        &self.auth
    }
}

} // verus!
