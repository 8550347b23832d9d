//! What the HTTP layer sends back, as plain values.
use vstd::prelude::*;

verus! {

/// An HTTP response: status code, content type and body text.
#[derive(Debug)]
pub struct HttpReply {
    pub status: u16,
    pub content_type: String,
    pub body: String,
}

/// The mathematical value of an [`HttpReply`].
pub struct HttpReplyView {
    pub status: u16,
    pub content_type: Seq<char>,
    pub body: Seq<char>,
}

impl View for HttpReply {
    type V = HttpReplyView;

    open spec fn view(&self) -> HttpReplyView {
        HttpReplyView { status: self.status, content_type: self.content_type@, body: self.body@ }
    }
}

} // verus!
