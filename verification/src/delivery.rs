//! One inbound notification.

use crate::events::Event;
use vstd::prelude::*;

verus! {

/// A delivery holds all that is known of one webhook request.
#[derive(Debug)]
pub struct Delivery<'a> {
    /// The sender's identifier of this delivery.
    pub id: &'a str,
    /// The name of the kind of event, as the sender announced it.
    pub event: &'a str,
    /// The decoded payload.
    pub payload: Event,
    /// The body of the request as it came. Signatures are checked against
    /// this text, never against the payload.
    pub unparsed_payload: &'a str,
    /// The signature header as it came, if there was one.
    pub signature: Option<&'a str>,
}

impl<'a> Delivery<'a> {
    /// Whether the payload is what decoding the body gives for this kind of
    /// event.
    pub open spec fn wf(&self) -> bool {
        &&& Event::decodes(self.event@, self.unparsed_payload@)
        &&& self.payload.agrees(self.event@, self.unparsed_payload@)
    }

    /// Makes the delivery of a request, unless its body cannot be decoded.
    pub fn new(
        id: &'a str,
        event: &'a str,
        payload: &'a str,
        signature: Option<&'a str>,
    ) -> (delivery: Option<Delivery<'a>>)
        ensures
            delivery is Some <==> Event::decodes(event@, payload@),
            delivery matches Some(made) ==> {
                &&& made.id == id
                &&& made.event == event
                &&& made.unparsed_payload == payload
                &&& made.signature == signature
                &&& made.wf()
            },
    {
        match Event::parse(event, payload) {
            Ok(parsed) => Some(
                Delivery { id, event, payload: parsed, unparsed_payload: payload, signature },
            ),
            Err(_) => None,
        }
    }
}

} // verus!
