//! The message envelope model: payloads, operation tags, and the decode
//! failure.

use vstd::prelude::*;

verus! {

/// The structured record an envelope carries.  Only two shapes matter to
/// this component: the two-field tuple record of insert/read requests and
/// the one-field text record of responses.  Every other shape is opaque
/// to it and cannot be decoded on the insert/read paths.
#[derive(Clone, Debug, PartialEq)]
pub enum Payload {
    /// A record of two ordered string fields: a key and a value.
    Tuple { first: String, second: String },
    /// A record of one string field, used for responses.
    Text { text: String },
    /// Any other record shape.
    Other,
}

/// The mathematical value of a [`Payload`].
pub enum PayloadView {
    Tuple { first: Seq<char>, second: Seq<char> },
    Text { text: Seq<char> },
    Other,
}

impl View for Payload {
    type V = PayloadView;

    open spec fn view(&self) -> PayloadView {
        match self {
            Payload::Tuple { first, second } => PayloadView::Tuple {
                first: first@,
                second: second@,
            },
            Payload::Text { text } => PayloadView::Text { text: text@ },
            Payload::Other => PayloadView::Other,
        }
    }
}

/// One unit of data flowing between components: a payload together with
/// an operation tag, a string classifying intent.  A fresh envelope's tag
/// is unset, which this model writes as the empty string.
#[derive(Clone, Debug, PartialEq)]
pub struct Envelope {
    pub action: String,
    pub payload: Payload,
}

/// The mathematical value of an [`Envelope`].
pub struct EnvelopeView {
    pub action: Seq<char>,
    pub payload: PayloadView,
}

impl View for Envelope {
    type V = EnvelopeView;

    open spec fn view(&self) -> EnvelopeView {
        EnvelopeView { action: self.action@, payload: self.payload@ }
    }
}

/// The failure of a handling cycle: the incoming payload does not match
/// the expected tuple shape, so a required field cannot be extracted.
/// The cycle aborts with no store mutation and no response.
#[derive(Clone, Copy, Debug, PartialEq, Eq)]
pub struct DecodeError;

} // verus!
