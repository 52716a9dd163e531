//! What the library asks of the HTTP client crate.
use vstd::prelude::*;
use crate::client::opt_view;

verus! {

/// The header fields of an HTTP request.
#[verifier::external_type_specification]
#[verifier::external_body]
pub struct ExHeaders(hyper::header::Headers);

/// The header fields that a header map holds: each field's name and the text
/// of its value.
pub uninterp spec fn header_fields(h: hyper::header::Headers) -> Map<Seq<char>, Seq<char>>;

/// The text of an `Authorization` field with Basic credentials for `user` and
/// `pass`: `Basic ` and the Base64 of the user name, a colon and the password.
pub uninterp spec fn basic_credentials_text(user: Seq<char>, pass: Option<Seq<char>>) -> Seq<char>;

/// The name of the header field that carries credentials.
pub open spec fn authorization() -> Seq<char> {
    seq!['A', 'u', 't', 'h', 'o', 'r', 'i', 'z', 'a', 't', 'i', 'o', 'n']
}

/// Relies on hyper::header::Headers::new: an empty header map.
#[verifier::external_body]
pub(crate) fn empty_headers() -> (r: hyper::header::Headers)
    ensures
        header_fields(r).dom() == Set::<Seq<char>>::empty(),
{
    hyper::header::Headers::new()
}

/// Relies on hyper::header::Headers::set with an `Authorization<Basic>`: on an
/// empty map, the one field `Authorization`, holding Basic credentials of
/// `user` and `pass`.
#[verifier::external_body]
pub(crate) fn set_basic_auth(h: &mut hyper::header::Headers, user: String, pass: Option<String>)
    requires
        header_fields(*old(h)).dom() == Set::<Seq<char>>::empty(),
    ensures
        header_fields(*final(h)) == (map![authorization() => basic_credentials_text(user@, opt_view(pass))]),
{
    h.set(hyper::header::Authorization(hyper::header::Basic { username: user, password: pass }))
}

} // verus!
