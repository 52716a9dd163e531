//! A handle to a remote JSON-RPC server.
use vstd::prelude::*;
use crate::http::{authorization, basic_credentials_text, empty_headers, header_fields, set_basic_auth};
use crate::nonce::{next_nonce, NonceCounter};
use crate::request::Request;

verus! {

/// A user name and the password that goes with it, if any.
#[derive(Debug, PartialEq, Eq)]
pub struct Credentials {
    pub username: String,
    pub password: Option<String>,
}

/// The view of an optional string.
pub open spec fn opt_view(s: Option<String>) -> Option<Seq<char>> {
    match s {
        Some(t) => Some(t@),
        None => None,
    }
}

/// A handle to a remote JSON-RPC server: where it is, who calls it, and the
/// counter that numbers the calls. The HTTP transport is made for each call.
pub struct Client {
    url: String,
    user: Option<String>,
    pass: Option<String>,
    nonce: NonceCounter,
}

impl Client {
    pub closed spec fn url_view(&self) -> Seq<char> {
        self.url@
    }

    pub closed spec fn user_view(&self) -> Option<Seq<char>> {
        opt_view(self.user)
    }

    pub closed spec fn pass_view(&self) -> Option<Seq<char>> {
        opt_view(self.pass)
    }

    /// The last identifier handed out, or zero before the first call.
    pub closed spec fn nonce_view(&self) -> u64 {
        self.nonce@
    }

    /// A password never comes without a user name.
    pub open spec fn wf(&self) -> bool {
        self.pass_view() is Some ==> self.user_view() is Some
    }

    /// A handle to the server at `url`, calling as `user` with `pass`; the
    /// first call gets identifier 1.
    pub fn new(url: String, user: Option<String>, pass: Option<String>) -> (r: Client)
        requires
            pass is Some ==> user is Some,
        ensures
            r.wf(),
            r.url_view() == url@,
            r.user_view() == opt_view(user),
            r.pass_view() == opt_view(pass),
            r.nonce_view() == 0,
    {
        Client { url, user, pass, nonce: NonceCounter::new() }
    }

    /// Where the server is.
    pub fn url(&self) -> (r: &str)
        ensures
            r@ == self.url_view(),
    {
        self.url.as_str()
    }

    /// The credentials that calls carry: none without a user name, else the
    /// user name with the password, which may be absent.
    pub fn credentials(&self) -> (r: Option<Credentials>)
        ensures
            r is None <==> self.user_view() is None,
            r matches Some(c) ==> Some(c.username@) == self.user_view() && opt_view(
                c.password,
            ) == self.pass_view(),
    {
        match &self.user {
            Some(u) => {
                let password = match &self.pass {
                    Some(p) => Some(p.clone()),
                    None => None,
                };
                Some(Credentials { username: u.clone(), password })
            },
            None => None,
        }
    }

    /// The header fields of a call: Basic credentials of the user name and
    /// password where the handle has a user name, and nothing else.
    pub fn headers(&self) -> (r: hyper::header::Headers)
        ensures
            self.user_view() is None ==> header_fields(r).dom() == Set::<Seq<char>>::empty(),
            self.user_view() matches Some(u) ==> header_fields(r) == (map![authorization() => basic_credentials_text(u, self.pass_view())]),
    {
        let mut h = empty_headers();
        match self.credentials() {
            Some(c) => set_basic_auth(&mut h, c.username, c.password),
            None => {},
        }
        h
    }

    /// A call of `name` with `params`, numbered with the next identifier.
    pub fn build_request(&mut self, name: String, params: Vec<serde_json::Value>) -> (r: Request)
        ensures
            final(self).nonce_view() == next_nonce(old(self).nonce_view()),
            r.id == final(self).nonce_view(),
            r.method@ == name@,
            r.params@ == params@,
            final(self).url_view() == old(self).url_view(),
            final(self).user_view() == old(self).user_view(),
            final(self).pass_view() == old(self).pass_view(),
    {
        self.nonce.build_request(name, params)
    }

    /// The last identifier handed out, or zero before the first call.
    pub fn last_nonce(&self) -> (r: u64)
        ensures
            r == self.nonce_view(),
    {
        self.nonce.last()
    }
}

} // verus!
