//! What the service sends back: a status and a body.
use vstd::prelude::*;

verus! {

/// The HTTP statuses the service answers with.
#[derive(Clone, Copy, Debug, PartialEq, Eq, Structural)]
pub enum Status {
    /// 200: the request was carried out.
    Success,
    /// 500: the service could not do its part.
    InternalServerError,
    /// 501: the command failed in a way the service cannot explain.
    NotImplemented,
}

impl Status {
    /// The status as the number that goes on the wire.
    pub open spec fn spec_code(self) -> u16 {
        match self {
            Status::Success => 200,
            Status::InternalServerError => 500,
            Status::NotImplemented => 501,
        }
    }

    /// The status as the number that goes on the wire.
    #[verifier::when_used_as_spec(spec_code)]
    pub fn code(self) -> (n: u16)
        ensures
            n == self.spec_code(),
    {
        match self {
            Status::Success => 200,
            Status::InternalServerError => 500,
            Status::NotImplemented => 501,
        }
    }
}

/// A reply: the status, and the body sent along with it.
///
/// In contracts a reply is read through its view, which is the same reply
/// with the body as a sequence of characters.
#[derive(Clone, Copy, Debug, PartialEq, Eq)]
pub struct Reply<B> {
    pub status: Status,
    pub body: B,
}

impl<B: View> View for Reply<B> {
    type V = Reply<B::V>;

    open spec fn view(&self) -> Reply<B::V> {
        Reply { status: self.status, body: self.body@ }
    }
}

/// An answer with the body of its reply, where it holds one, taken by its
/// view.
pub open spec fn seen<B: View, E>(answer: Result<Reply<B>, E>) -> Result<Reply<B::V>, E> {
    match answer {
        Ok(reply) => Ok(reply@),
        Err(e) => Err(e),
    }
}

} // verus!
