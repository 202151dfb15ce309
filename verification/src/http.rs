use vstd::prelude::*;

verus! {

/// The version of HTTP to ask the transport for.
#[derive(Clone, Copy, Debug, PartialEq, Eq, Structural)]
pub enum RequestedHttpVersion {
    /// Whatever the transport takes by itself.
    Default,
    Http10,
    Http11,
    Http2,
    Http3,
}

/// The family of addresses to ask the transport for.
#[derive(Clone, Copy, Debug, PartialEq, Eq, Structural)]
pub enum IpResolve {
    /// Whatever the transport takes by itself.
    Default,
    IpV4,
    IpV6,
}

/// The body of a request, ready for the transport.
#[derive(Debug, PartialEq, Eq)]
pub enum Body {
    /// A text.
    Text(String),
    /// Bytes that a literal spelled out.
    Binary(Vec<u8>),
    /// The bytes of a file, and the name that the source gave the file.
    File(Vec<u8>, String),
}

/// What a `Body` is.
pub enum BodyView {
    Text(Seq<char>),
    Binary(Seq<u8>),
    File(Seq<u8>, Seq<char>),
}

impl View for Body {
    type V = BodyView;

    open spec fn view(&self) -> BodyView {
        match *self {
            Body::Text(text) => BodyView::Text(text@),
            Body::Binary(bytes) => BodyView::Binary(bytes@),
            Body::File(bytes, name) => BodyView::File(bytes@, name@),
        }
    }
}

impl Clone for Body {
    fn clone(&self) -> (copy: Self)
        ensures
            copy@ == self@,
    {
        match self {
            Body::Text(text) => Body::Text(text.clone()),
            Body::Binary(bytes) => Body::Binary(bytes.clone()),
            Body::File(bytes, name) => Body::File(bytes.clone(), name.clone()),
        }
    }
}

} // verus!
