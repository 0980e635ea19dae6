//! Types and decisions of a banking assistant built on the engine: it
//! collects a user's details, fetches their account, then answers requests.

use vstd::prelude::*;
use crate::error::GraphError;

verus! {

/// The details a user has given so far.
#[derive(Debug, Clone, Default)]
pub struct UserDetails {
    pub username: Option<String>,
    pub bank_number: Option<String>,
}

impl UserDetails {
    /// Whether both the username and the bank number are known.
    pub fn is_complete(&self) -> (r: bool)
        ensures
            r == (self.username is Some && self.bank_number is Some),
    {
        self.username.is_some() && self.bank_number.is_some()
    }
}

/// The task that collects a user's username and bank number.
#[derive(Debug)]
pub struct CollectUserDetailsTask {
    id: String,
}

impl CollectUserDetailsTask {
    /// The task's id, as characters.
    pub closed spec fn name(&self) -> Seq<char> {
        self.id@
    }

    pub fn new() -> (r: Self)
        ensures
            r.name() == "collect_user_details"@,
    {
        CollectUserDetailsTask { id: "collect_user_details".to_owned() }
    }

    /// The task's id.
    pub fn id(&self) -> (r: &str)
        ensures
            r@ == self.name(),
    {
        self.id.as_str()
    }
}

/// The task that fetches the account of a user whose details are known.
#[derive(Debug)]
pub struct FetchAccountDetailsTask {
    id: String,
}

impl FetchAccountDetailsTask {
    /// The task's id, as characters.
    pub closed spec fn name(&self) -> Seq<char> {
        self.id@
    }

    pub fn new() -> (r: Self)
        ensures
            r.name() == "fetch_account_details"@,
    {
        FetchAccountDetailsTask { id: "fetch_account_details".to_owned() }
    }

    /// The task's id.
    pub fn id(&self) -> (r: &str)
        ensures
            r@ == self.name(),
    {
        self.id.as_str()
    }

    /// The username and bank number to fetch the account of, from the user
    /// details read from the context; a context error names what is missing.
    pub fn credentials(details: Option<&UserDetails>) -> (r: Result<(String, String), GraphError>)
        ensures
            match details {
                None => r matches Err(GraphError::ContextError(m)) && m@ == "user_details not found"@,
                Some(d) => match (d.username, d.bank_number) {
                    (Some(u), Some(b)) => r == Ok::<(String, String), GraphError>((u, b)),
                    (None, _) => r matches Err(GraphError::ContextError(m)) && m@
                        == "username not found in user_details"@,
                    (Some(_), None) => r matches Err(GraphError::ContextError(m)) && m@
                        == "bank_number not found in user_details"@,
                },
            },
    {
        match details {
            None => Err(GraphError::ContextError("user_details not found".to_owned())),
            Some(d) => match &d.username {
                None => Err(GraphError::ContextError("username not found in user_details".to_owned())),
                Some(u) => match &d.bank_number {
                    None => Err(GraphError::ContextError("bank_number not found in user_details".to_owned())),
                    Some(b) => Ok((u.clone(), b.clone())),
                },
            },
        }
    }
}

/// The task that answers a user's requests about their account.
#[derive(Debug)]
pub struct AnswerUserRequestsTask {
    id: String,
}

impl AnswerUserRequestsTask {
    /// The task's id, as characters.
    pub closed spec fn name(&self) -> Seq<char> {
        self.id@
    }

    pub fn new() -> (r: Self)
        ensures
            r.name() == "answer_user_requests"@,
    {
        AnswerUserRequestsTask { id: "answer_user_requests".to_owned() }
    }

    /// The task's id.
    pub fn id(&self) -> (r: &str)
        ensures
            r@ == self.name(),
    {
        self.id.as_str()
    }
}

} // verus!
