//! Hooks: what a registry calls when a delivery comes in.

use crate::delivery::Delivery;
use crate::signature::{authentic, verify_signature};
use vstd::prelude::*;
use vstd::utf8::encode_utf8;

verus! {

/// Handles webhook deliveries.
pub trait Hook: Send + Sync {
    /// The deliveries that this hook is prepared to handle. Whoever calls
    /// `handle` owes the hook a delivery that it accepts. A hook that says
    /// nothing else accepts every delivery.
    open spec fn accepts(&self, delivery: &Delivery) -> bool {
        true
    }

    /// Reacts to a delivery.
    fn handle(&self, delivery: &Delivery)
        requires
            self.accepts(delivery),
    ;
}

/// A function of a delivery is a hook. It accepts the deliveries that it
/// can be called with.
impl<F> Hook for F where F: Fn(&Delivery), F: Sync + Send {
    open spec fn accepts(&self, delivery: &Delivery) -> bool {
        call_requires(*self, (delivery,))
    }

    fn handle(&self, delivery: &Delivery) {
        self(delivery)
    }
}

/// A function accepts the deliveries that it can be called with. Verus does
/// not see this by itself where the function is a closure of known type:
/// there a call of this lemma tells it.
pub proof fn lemma_function_accepts<F>(function: F) where F: Fn(&Delivery), F: Sync + Send
    ensures
        forall|delivery: &Delivery| #[trigger]
            function.accepts(delivery) == call_requires(function, (delivery,)),
{
}

/// A hook that lets a delivery through to another hook only when the
/// delivery's signature is authentic under a secret.
pub struct AuthenticateHook<H: Hook + 'static> {
    secret: String,
    hook: H,
}

impl<H: Hook + 'static> AuthenticateHook<H> {
    /// The secret that deliveries are checked against.
    pub closed spec fn secret(&self) -> Seq<char> {
        self.secret@
    }

    /// The hook behind the check.
    pub closed spec fn inner(&self) -> H {
        self.hook
    }

    /// Whether `signature` vouches for the body `payload` under this hook's
    /// secret, each taken as its UTF-8 bytes.
    pub open spec fn vouched(&self, payload: Seq<char>, signature: Seq<char>) -> bool {
        authentic(encode_utf8(self.secret()), encode_utf8(payload), encode_utf8(signature))
    }

    /// Whether `delivery` is let through: it carries a signature, and the
    /// signature vouches for its body.
    pub open spec fn admits(&self, delivery: &Delivery) -> bool {
        delivery.signature matches Some(signature) && self.vouched(
            delivery.unparsed_payload@,
            signature@,
        )
    }

    /// Puts `hook` behind a signature check under `secret`.
    pub fn new(secret: &str, hook: H) -> (made: AuthenticateHook<H>)
        ensures
            made.secret() == secret@,
            made.inner() == hook,
    {
        AuthenticateHook { secret: secret.to_owned(), hook }
    }

    /// Checks `signature` against the body `payload`.
    pub fn authenticate(&self, payload: &str, signature: &str) -> (ok: bool)
        ensures
            ok == self.vouched(payload@, signature@),
    {
        verify_signature(self.secret.as_str().as_bytes(), payload.as_bytes(), signature.as_bytes())
    }

    /// Decides whether `delivery` is let through.
    pub fn lets_through(&self, delivery: &Delivery) -> (ok: bool)
        ensures
            ok == self.admits(delivery),
    {
        match delivery.signature {
            Some(signature) => self.authenticate(delivery.unparsed_payload, signature),
            None => false,
        }
    }
}

/// The hook behind the check sees the deliveries that are let through, and
/// no others: so it need accept no others.
impl<H: Hook + 'static> Hook for AuthenticateHook<H> {
    open spec fn accepts(&self, delivery: &Delivery) -> bool {
        self.admits(delivery) ==> self.inner().accepts(delivery)
    }

    fn handle(&self, delivery: &Delivery) {
        if self.lets_through(delivery) {
            self.hook.handle(delivery)
        }
    }
}

/// A delivery without a signature is not let through, whatever the secret.
pub proof fn lemma_unsigned_is_held_back<H: Hook + 'static>(
    hook: AuthenticateHook<H>,
    delivery: &Delivery,
)
    requires
        delivery.signature is None,
    ensures
        !hook.admits(delivery),
{
}

} // verus!
