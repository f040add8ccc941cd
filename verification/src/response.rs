//! Responses on both sides of the bridge: what a handler returns, and what
//! goes out on the wire.
//!
//! Both carry a status, a list of headers, an optional route pattern (an
//! attribute for later instrumentation that is never written to the client)
//! and a body. The route pattern `P` and the file handle `F` are carried
//! through unread, so both are type parameters.

use vstd::prelude::*;

verus! {

/// The body of a handler's response: exactly one of three representations.
#[derive(Debug, PartialEq, Eq)]
pub enum HandlerBody<F> {
    /// Bytes that live as long as the process.
    Static(&'static [u8]),
    /// A buffer that the response owns.
    Owned(Vec<u8>),
    /// An open file, still to be read.
    File(F),
}

/// The model of a [`HandlerBody`].
pub enum HandlerBodyView<F> {
    Static(Seq<u8>),
    Owned(Seq<u8>),
    File(F),
}

impl<F> View for HandlerBody<F> {
    type V = HandlerBodyView<F>;

    open spec fn view(&self) -> HandlerBodyView<F> {
        match *self {
            HandlerBody::Static(bytes) => HandlerBodyView::Static(bytes@),
            HandlerBody::Owned(bytes) => HandlerBodyView::Owned(bytes@),
            HandlerBody::File(file) => HandlerBodyView::File(file),
        }
    }
}

/// The body of a response on the wire.
#[derive(Debug, PartialEq, Eq)]
pub enum WireBody<F> {
    /// Sent from bytes that live as long as the process, without a copy.
    Static(&'static [u8]),
    /// Sent from a buffer that the body owns.
    Owned(Vec<u8>),
    /// Read from the file and sent in bounded chunks.
    Streamed(F),
}

/// The model of a [`WireBody`].
pub enum WireBodyView<F> {
    Static(Seq<u8>),
    Owned(Seq<u8>),
    Streamed(F),
}

impl<F> View for WireBody<F> {
    type V = WireBodyView<F>;

    open spec fn view(&self) -> WireBodyView<F> {
        match *self {
            WireBody::Static(bytes) => WireBodyView::Static(bytes@),
            WireBody::Owned(bytes) => WireBodyView::Owned(bytes@),
            WireBody::Streamed(file) => WireBodyView::Streamed(file),
        }
    }
}

impl<F> HandlerBodyView<F> {
    /// The bytes that the body holds in memory; a file holds none there.
    pub open spec fn bytes(self) -> Option<Seq<u8>> {
        match self {
            HandlerBodyView::Static(bytes) => Some(bytes),
            HandlerBodyView::Owned(bytes) => Some(bytes),
            HandlerBodyView::File(_) => None,
        }
    }

    /// The file that the body is read from, where it is one.
    pub open spec fn file(self) -> Option<F> {
        match self {
            HandlerBodyView::File(file) => Some(file),
            _ => None,
        }
    }
}

impl<F> WireBodyView<F> {
    /// The bytes that the body holds in memory; a streamed body holds none.
    pub open spec fn bytes(self) -> Option<Seq<u8>> {
        match self {
            WireBodyView::Static(bytes) => Some(bytes),
            WireBodyView::Owned(bytes) => Some(bytes),
            WireBodyView::Streamed(_) => None,
        }
    }

    /// The file that the body is streamed from, where it is streamed.
    pub open spec fn file(self) -> Option<F> {
        match self {
            WireBodyView::Streamed(file) => Some(file),
            _ => None,
        }
    }
}

/// What a handler returns.
#[derive(Debug, PartialEq, Eq)]
pub struct HandlerResponse<P, F> {
    pub status: u16,
    /// Header names with their values, in order.
    pub headers: Vec<(String, Vec<u8>)>,
    pub route_pattern: Option<P>,
    pub body: HandlerBody<F>,
}

/// The model of a [`HandlerResponse`].
pub struct HandlerResponseView<P, F> {
    pub status: u16,
    pub headers: Seq<(Seq<char>, Seq<u8>)>,
    pub route_pattern: Option<P>,
    pub body: HandlerBodyView<F>,
}

impl<P, F> View for HandlerResponse<P, F> {
    type V = HandlerResponseView<P, F>;

    open spec fn view(&self) -> HandlerResponseView<P, F> {
        HandlerResponseView {
            status: self.status,
            headers: self.headers.deep_view(),
            route_pattern: self.route_pattern,
            body: self.body@,
        }
    }
}

/// What is sent to the client.
#[derive(Debug, PartialEq, Eq)]
pub struct WireResponse<P, F> {
    pub status: u16,
    /// Header names with their values, in order.
    pub headers: Vec<(String, Vec<u8>)>,
    pub route_pattern: Option<P>,
    pub body: WireBody<F>,
}

/// The model of a [`WireResponse`].
pub struct WireResponseView<P, F> {
    pub status: u16,
    pub headers: Seq<(Seq<char>, Seq<u8>)>,
    pub route_pattern: Option<P>,
    pub body: WireBodyView<F>,
}

impl<P, F> View for WireResponse<P, F> {
    type V = WireResponseView<P, F>;

    open spec fn view(&self) -> WireResponseView<P, F> {
        WireResponseView {
            status: self.status,
            headers: self.headers.deep_view(),
            route_pattern: self.route_pattern,
            body: self.body@,
        }
    }
}

/// The parts of the request, as the handler saw it, that the response
/// conversion reads.
#[derive(Debug, PartialEq, Eq)]
pub struct HandlerRequest<P> {
    /// The pattern of the route that served the request, where one matched.
    pub route_pattern: Option<P>,
}

} // verus!
