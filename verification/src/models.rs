//! The bodies of the requests that the service takes, and the placeholder
//! rule that answers a log-in.

use vstd::prelude::*;
use crate::boundary::text_view;

verus! {

/// The body of a log-in request.
#[derive(Debug, Clone)]
pub struct LoginRequest {
    pub username: String,
    pub password: String,
}

/// The mathematical value of a [`LoginRequest`].
pub struct LoginRequestView {
    pub username: Seq<char>,
    pub password: Seq<char>,
}

impl View for LoginRequest {
    type V = LoginRequestView;

    open spec fn view(&self) -> LoginRequestView {
        LoginRequestView { username: self.username@, password: self.password@ }
    }
}

impl LoginRequest {
    /// Whether the request names the one account that the placeholder log-in
    /// knows, with its password.
    pub fn is_accepted(&self) -> (accepted: bool)
        ensures
            accepted == (self.username@ == "admin"@ && self.password@ == "password"@),
    {
        let username = "admin".to_owned();
        let password = "password".to_owned();
        self.username == username && self.password == password
    }
}

/// The body of a request that creates a task.
#[derive(Debug, Clone)]
pub struct CreateTaskRequest {
    pub title: String,
    pub description: Option<String>,
}

/// The mathematical value of a [`CreateTaskRequest`].
pub struct CreateTaskRequestView {
    pub title: Seq<char>,
    pub description: Option<Seq<char>>,
}

impl View for CreateTaskRequest {
    type V = CreateTaskRequestView;

    open spec fn view(&self) -> CreateTaskRequestView {
        CreateTaskRequestView { title: self.title@, description: text_view(self.description) }
    }
}

} // verus!
