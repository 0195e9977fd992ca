//! The shared error type: one case per failure kind, each carrying a
//! human-readable message.

use vstd::prelude::*;

verus! {

/// Failure kinds shared across the library and its host application.
///
/// `API` covers upstream-service failures unrelated to token content,
/// `NetworkMiddleware` and `Network` carry transport-layer failures as
/// messages, `SignUp`, `SignIn` and `User` are reserved for adjacent account
/// operations, and `Token` means the identity token itself is invalid.
pub enum Error {
    API(String),
    NetworkMiddleware(String),
    Network(String),
    SignUp(String),
    SignIn(String),
    User(String),
    Token(String),
}

/// The mathematical shape of an [`Error`]: the same cases over character
/// sequences.
pub enum ErrorView {
    API(Seq<char>),
    NetworkMiddleware(Seq<char>),
    Network(Seq<char>),
    SignUp(Seq<char>),
    SignIn(Seq<char>),
    User(Seq<char>),
    Token(Seq<char>),
}

impl View for Error {
    type V = ErrorView;

    open spec fn view(&self) -> ErrorView {
        match self {
            Error::API(m) => ErrorView::API(m@),
            Error::NetworkMiddleware(m) => ErrorView::NetworkMiddleware(m@),
            Error::Network(m) => ErrorView::Network(m@),
            Error::SignUp(m) => ErrorView::SignUp(m@),
            Error::SignIn(m) => ErrorView::SignIn(m@),
            Error::User(m) => ErrorView::User(m@),
            Error::Token(m) => ErrorView::Token(m@),
        }
    }
}

impl Error {
    /// The message carried by the error, whatever its kind.
    pub fn message(&self) -> (r: &String)
        ensures
            r@ == self.spec_message(),
    {
        match self {
            Error::API(m) => m,
            Error::NetworkMiddleware(m) => m,
            Error::Network(m) => m,
            Error::SignUp(m) => m,
            Error::SignIn(m) => m,
            Error::User(m) => m,
            Error::Token(m) => m,
        }
    }

    /// The message of the error at the specification level.
    pub open spec fn spec_message(&self) -> Seq<char> {
        match self@ {
            ErrorView::API(m) => m,
            ErrorView::NetworkMiddleware(m) => m,
            ErrorView::Network(m) => m,
            ErrorView::SignUp(m) => m,
            ErrorView::SignIn(m) => m,
            ErrorView::User(m) => m,
            ErrorView::Token(m) => m,
        }
    }
}

} // verus!
