//! The dispatch protocol: what becomes of one request.
//!
//! A request is its three headers and its body. The worker looks at them in
//! a fixed order, stops at the first thing that is wrong, and otherwise
//! hands the delivery to every interested hook:
//!
//! 1. the headers that name the kind of event and the delivery must be
//!    there;
//! 2. some hook must be interested in deliveries of that kind;
//! 3. the body must have been read;
//! 4. the body must be decodable as a payload of that kind.
//!
//! The listener reads headers and body off the wire, and may ask
//! [`Worker::screen`] whether the body is worth reading at all.

use crate::delivery::Delivery;
use crate::events::{Event, EventKind};
use crate::hook::Hook;
use crate::hub::{listed, resolve, BoxedHook, Hub, Table, WILDCARD};
use vstd::prelude::*;
use vstd::utf8::{decode_utf8, valid_utf8};

verus! {

/// The status of a response.
#[derive(Clone, Copy, Debug, PartialEq, Eq, Structural)]
pub enum Status {
    /// 200: the delivery went to the hooks.
    Success,
    /// 202: taken, and nothing done.
    Accepted,
    /// 400: the request is at fault.
    BadRequest,
}

impl Status {
    /// The number of this status in HTTP.
    pub open spec fn spec_code(self) -> u16 {
        match self {
            Status::Success => 200,
            Status::Accepted => 202,
            Status::BadRequest => 400,
        }
    }

    /// The number of this status in HTTP.
    pub fn code(self) -> (code: u16)
        ensures
            code == self.spec_code(),
    {
        match self {
            Status::Success => 200,
            Status::Accepted => 202,
            Status::BadRequest => 400,
        }
    }
}

/// How the handling of a request ends.
#[derive(Clone, Copy, Debug, PartialEq, Eq, Structural)]
pub enum Outcome {
    /// A required header is missing or is not text.
    InvalidHeaders,
    /// No hook is interested in deliveries of this kind.
    NoHook,
    /// The body could not be read.
    BodyUnreadable,
    /// The body could not be decoded.
    ParseFailure,
    /// The delivery went to every interested hook.
    Delivered,
}

impl Outcome {
    /// The status that answers a request with this outcome.
    pub open spec fn spec_status(self) -> Status {
        match self {
            Outcome::InvalidHeaders => Status::BadRequest,
            Outcome::NoHook => Status::Accepted,
            Outcome::BodyUnreadable => Status::BadRequest,
            Outcome::ParseFailure => Status::BadRequest,
            Outcome::Delivered => Status::Success,
        }
    }

    /// The text that answers a request with this outcome.
    pub open spec fn spec_message(self) -> Seq<char> {
        match self {
            Outcome::InvalidHeaders => "invalid request headers"@,
            Outcome::NoHook => "no hook configured"@,
            Outcome::BodyUnreadable => "failed to read body"@,
            Outcome::ParseFailure => "failed to parse event"@,
            Outcome::Delivered => "OK"@,
        }
    }

    /// The status that answers a request with this outcome.
    pub fn status(self) -> (status: Status)
        ensures
            status == self.spec_status(),
    {
        match self {
            Outcome::InvalidHeaders => Status::BadRequest,
            Outcome::NoHook => Status::Accepted,
            Outcome::BodyUnreadable => Status::BadRequest,
            Outcome::ParseFailure => Status::BadRequest,
            Outcome::Delivered => Status::Success,
        }
    }

    /// The text that answers a request with this outcome.
    pub fn message(self) -> (message: &'static str)
        ensures
            message@ == self.spec_message(),
    {
        match self {
            Outcome::InvalidHeaders => "invalid request headers",
            Outcome::NoHook => "no hook configured",
            Outcome::BodyUnreadable => "failed to read body",
            Outcome::ParseFailure => "failed to parse event",
            Outcome::Delivered => "OK",
        }
    }

    /// The response to a request with this outcome.
    pub fn response(self) -> (response: Response)
        ensures
            response.answers(self),
    {
        Response { status: self.status(), body: self.message() }
    }
}

/// What goes back to the sender.
#[derive(Clone, Copy, Debug)]
pub struct Response {
    pub status: Status,
    pub body: &'static str,
}

impl Response {
    /// Whether this is the response to a request with `outcome`.
    pub open spec fn answers(&self, outcome: Outcome) -> bool {
        self.status == outcome.spec_status() && self.body@ == outcome.spec_message()
    }
}

/// The characters of a header or a body that is there.
pub open spec fn text_of(value: Option<&str>) -> Option<Seq<char>> {
    match value {
        Some(text) => Some(text@),
        None => None,
    }
}

/// The text that the bytes of a body are read as: their characters where
/// they are UTF-8, with U+FFFD in place of what is not.
pub uninterp spec fn utf8_lossy(bytes: Seq<u8>) -> Seq<char>;

/// The text of a body that was read.
pub open spec fn body_text(body: Option<&[u8]>) -> Option<Seq<char>> {
    match body {
        Some(bytes) => Some(utf8_lossy(bytes@)),
        None => None,
    }
}

/// What can be said of a request before its body is read: the outcome, if
/// the headers or the table already settle it.
pub open spec fn early_outcome(
    table: Table,
    event: Option<Seq<char>>,
    delivery: Option<Seq<char>>,
) -> Option<Outcome> {
    if event is None || delivery is None {
        Some(Outcome::InvalidHeaders)
    } else if resolve(table, event.unwrap()) is None {
        Some(Outcome::NoHook)
    } else {
        None
    }
}

/// The outcome of a request with the headers `event` and `delivery` and
/// the body `body`, at a worker with `table`.
pub open spec fn outcome_of(
    table: Table,
    event: Option<Seq<char>>,
    delivery: Option<Seq<char>>,
    body: Option<Seq<char>>,
) -> Outcome {
    if early_outcome(table, event, delivery) is Some {
        early_outcome(table, event, delivery).unwrap()
    } else if body is None {
        Outcome::BodyUnreadable
    } else if !Event::decodes(event.unwrap(), body.unwrap()) {
        Outcome::ParseFailure
    } else {
        Outcome::Delivered
    }
}

/// The hooks that the delivery of a request is handed to, in order: every
/// interested hook if the request is delivered, and none otherwise.
pub open spec fn reached(
    table: Table,
    event: Option<Seq<char>>,
    delivery: Option<Seq<char>>,
    body: Option<Seq<char>>,
) -> Seq<BoxedHook> {
    if outcome_of(table, event, delivery, body) == Outcome::Delivered {
        resolve(table, event.unwrap()).unwrap()
    } else {
        Seq::empty()
    }
}

/// The hooks that a list of references points to.
pub open spec fn targets(hooks: Seq<&BoxedHook>) -> Seq<BoxedHook> {
    hooks.map_values(|hook: &BoxedHook| *hook)
}

/// What a worker is about to do with a request.
pub struct Plan<'h, 'r> {
    /// How the request ends.
    pub outcome: Outcome,
    /// The delivery, if the request has one to hand out.
    pub delivery: Option<Delivery<'r>>,
    /// The hooks that the delivery goes to, in order.
    pub hooks: Vec<&'h BoxedHook>,
}

/// A worker answers requests with the hooks of a hub.
pub struct Worker<'h> {
    pub hub: &'h Hub,
}

impl<'h> From<&'h Hub> for Worker<'h> {
    fn from(hub: &'h Hub) -> (worker: Worker<'h>) {
        Worker { hub }
    }
}

impl<'h> vstd::std_specs::convert::FromSpecImpl<&'h Hub> for Worker<'h> {
    open spec fn obeys_from_spec() -> bool {
        true
    }

    open spec fn from_spec(hub: &'h Hub) -> Worker<'h> {
        Worker { hub }
    }
}

/// Calls `String::from_utf8_lossy`. The result depends on the bytes alone,
/// and bytes that are UTF-8 are read as the text they encode.
#[verifier::external_body]
fn decode_lossy(bytes: &[u8]) -> (text: String)
    ensures
        text@ == utf8_lossy(bytes@),
        valid_utf8(bytes@) ==> text@ == decode_utf8(bytes@),
{
    String::from_utf8_lossy(bytes).into_owned()
}

/// Appends a reference to each hook of `list` to `all`.
fn gather<'h>(all: &mut Vec<&'h BoxedHook>, list: &'h Vec<BoxedHook>)
    ensures
        targets(final(all)@) == targets(old(all)@) + list@,
{
    let ghost before = all@;
    let mut i: usize = 0;
    while i < list.len()
        invariant
            i <= list@.len(),
            targets(all@) == targets(before) + list@.take(i as int),
        decreases list@.len() - i,
    {
        let ghost gathered = all@;
        all.push(&list[i]);
        assert(targets(all@) =~= targets(gathered).push(list@[i as int]));
        assert(list@.take(i + 1) =~= list@.take(i as int).push(list@[i as int]));
        i += 1;
    }
    assert(list@.take(list@.len() as int) =~= list@);
}

/// Hands `delivery` to each of `hooks`, first to last.
fn dispatch(delivery: &Delivery, hooks: &Vec<&BoxedHook>)
    requires
        forall|i: int| 0 <= i < hooks@.len() ==> (#[trigger] hooks@[i]).accepts(delivery),
{
    let mut i: usize = 0;
    while i < hooks.len()
        invariant
            i <= hooks@.len(),
            forall|i: int| 0 <= i < hooks@.len() ==> (#[trigger] hooks@[i]).accepts(delivery),
        decreases hooks@.len() - i,
    {
        hooks[i].handle(delivery);
        i += 1;
    }
}

impl<'h> Worker<'h> {
    /// The table of the hub behind this worker.
    pub open spec fn view(&self) -> Table {
        self.hub@
    }

    /// Gets all hooks interested in deliveries of the kind `event`: those
    /// registered under its name, then those registered under `*`. Each
    /// accepts every well-formed delivery of that kind.
    pub fn hooks(&self, event: &str) -> (found: Option<Vec<&'h BoxedHook>>)
        ensures
            found is Some <==> resolve(self@, event@) is Some,
            found matches Some(hooks) ==> {
                &&& Some(targets(hooks@)) == resolve(self@, event@)
                &&& hooks@.len() > 0
                &&& forall|i: int, delivery: &Delivery|
                    0 <= i < hooks@.len() && delivery.wf() && delivery.event@ == event@
                        ==> #[trigger] hooks@[i].accepts(delivery)
            },
    {
        let explicit = self.hub.get(event);
        let implicit = self.hub.get(WILDCARD);
        if explicit.is_none() && implicit.is_none() {
            return None;
        }
        let mut all: Vec<&'h BoxedHook> = Vec::new();
        assert(targets(all@) =~= Seq::<BoxedHook>::empty());
        if let Some(list) = explicit {
            gather(&mut all, list);
        }
        assert(targets(all@) =~= listed(self@, event@));
        if let Some(list) = implicit {
            gather(&mut all, list);
        }
        assert(targets(all@) =~= listed(self@, event@) + listed(self@, WILDCARD@));
        assert forall|i: int, delivery: &Delivery|
            0 <= i < all@.len() && delivery.wf() && delivery.event@ == event@ implies #[trigger] all@[i].accepts(
            delivery,
        ) by {
            assert(*all@[i] == targets(all@)[i]);
        }
        Some(all)
    }

    /// Says how a request ends if its headers or the hub already settle
    /// that, before the body is read.
    pub fn screen(&self, event: Option<&str>, delivery: Option<&str>) -> (early: Option<Outcome>)
        ensures
            early == early_outcome(self@, text_of(event), text_of(delivery)),
    {
        match (event, delivery) {
            (Some(kind), Some(_)) => {
                if self.hooks(kind).is_none() {
                    Some(Outcome::NoHook)
                } else {
                    None
                }
            },
            _ => Some(Outcome::InvalidHeaders),
        }
    }

    /// Decides what to do with a request: how it ends, and which hooks get
    /// which delivery.
    pub fn plan<'r>(
        &self,
        event: Option<&'r str>,
        delivery: Option<&'r str>,
        signature: Option<&'r str>,
        body: Option<&'r str>,
    ) -> (plan: Plan<'h, 'r>)
        ensures
            plan.outcome == outcome_of(self@, text_of(event), text_of(delivery), text_of(body)),
            targets(plan.hooks@) == reached(
                self@,
                text_of(event),
                text_of(delivery),
                text_of(body),
            ),
            plan.delivery is Some <==> plan.outcome == Outcome::Delivered,
            plan.delivery is Some ==> plan.hooks@.len() > 0,
            plan.delivery matches Some(made) ==> {
                &&& Some(made.id) == delivery
                &&& Some(made.event) == event
                &&& Some(made.unparsed_payload) == body
                &&& made.signature == signature
                &&& made.wf()
                &&& forall|i: int|
                    0 <= i < plan.hooks@.len() ==> (#[trigger] plan.hooks@[i]).accepts(&made)
            },
    {
        let (kind, id) = match (event, delivery) {
            (Some(kind), Some(id)) => (kind, id),
            _ => {
                return Plan { outcome: Outcome::InvalidHeaders, delivery: None, hooks: Vec::new() };
            },
        };
        let hooks = match self.hooks(kind) {
            Some(hooks) => hooks,
            None => {
                return Plan { outcome: Outcome::NoHook, delivery: None, hooks: Vec::new() };
            },
        };
        let text = match body {
            Some(text) => text,
            None => {
                return Plan { outcome: Outcome::BodyUnreadable, delivery: None, hooks: Vec::new() };
            },
        };
        match Delivery::new(id, kind, text, signature) {
            Some(made) => Plan { outcome: Outcome::Delivered, delivery: Some(made), hooks },
            None => Plan { outcome: Outcome::ParseFailure, delivery: None, hooks: Vec::new() },
        }
    }

    /// Handles one request: hands its delivery to every interested hook, in
    /// order, and says what to answer.
    pub fn call(
        &self,
        event: Option<&str>,
        delivery: Option<&str>,
        signature: Option<&str>,
        body: Option<&[u8]>,
    ) -> (response: Response)
        ensures
            response.answers(
                outcome_of(self@, text_of(event), text_of(delivery), body_text(body)),
            ),
    {
        if let Some(early) = self.screen(event, delivery) {
            return early.response();
        }
        let bytes = match body {
            Some(bytes) => bytes,
            None => {
                return Outcome::BodyUnreadable.response();
            },
        };
        let text = decode_lossy(bytes);
        let plan = self.plan(event, delivery, signature, Some(text.as_str()));
        if let Some(made) = &plan.delivery {
            dispatch(made, &plan.hooks);
        }
        plan.outcome.response()
    }
}

/// What is settled before the body is read stays settled whatever the body
/// holds.
pub proof fn lemma_early_outcome_stands(
    table: Table,
    event: Option<Seq<char>>,
    delivery: Option<Seq<char>>,
    body: Option<Seq<char>>,
)
    requires
        early_outcome(table, event, delivery) is Some,
    ensures
        Some(outcome_of(table, event, delivery, body)) == early_outcome(table, event, delivery),
        reached(table, event, delivery, body) == Seq::<BoxedHook>::empty(),
{
}

/// A request without the header that names the kind of event is answered
/// as a bad request, and reaches no hook.
pub proof fn lemma_missing_event_is_refused(
    table: Table,
    delivery: Option<Seq<char>>,
    body: Option<Seq<char>>,
)
    ensures
        outcome_of(table, None, delivery, body) == Outcome::InvalidHeaders,
        outcome_of(table, None, delivery, body).spec_status() == Status::BadRequest,
        reached(table, None, delivery, body) == Seq::<BoxedHook>::empty(),
{
}

/// A request of a kind that no hook is interested in, by name or through
/// `*`, is answered with "no hook configured" whatever its body holds: the
/// body is not looked at.
pub proof fn lemma_unheard_kind_is_a_no_op(
    table: Table,
    event: Seq<char>,
    delivery: Seq<char>,
    body: Option<Seq<char>>,
)
    requires
        !table.contains_key(event),
        !table.contains_key(WILDCARD@),
    ensures
        outcome_of(table, Some(event), Some(delivery), body) == Outcome::NoHook,
        Outcome::NoHook.spec_message() == "no hook configured"@,
        reached(table, Some(event), Some(delivery), body) == Seq::<BoxedHook>::empty(),
{
}

/// A request of a known kind whose body is not JSON is answered as a parse
/// failure, and reaches no hook.
pub proof fn lemma_malformed_body_is_refused(
    table: Table,
    event: Seq<char>,
    delivery: Seq<char>,
    body: Seq<char>,
)
    requires
        resolve(table, event) is Some,
        EventKind::named(event) is Some,
        !crate::events::is_json(body),
    ensures
        outcome_of(table, Some(event), Some(delivery), Some(body)) == Outcome::ParseFailure,
        reached(table, Some(event), Some(delivery), Some(body)) == Seq::<BoxedHook>::empty(),
{
}

/// A request of a known kind whose body is JSON, but lacks a member that
/// the kind requires, is answered as a parse failure, and reaches no hook.
pub proof fn lemma_misshapen_body_is_refused(
    table: Table,
    event: Seq<char>,
    delivery: Seq<char>,
    body: Seq<char>,
    kind: EventKind,
    found: Set<Seq<char>>,
)
    requires
        resolve(table, event) is Some,
        EventKind::named(event) == Some(kind),
        crate::events::json_members(body) == Some(found),
        !crate::events::shaped(kind, found),
    ensures
        outcome_of(table, Some(event), Some(delivery), Some(body)) == Outcome::ParseFailure,
        reached(table, Some(event), Some(delivery), Some(body)) == Seq::<BoxedHook>::empty(),
        Event::fault(event, body) == crate::events::ParseError::Data,
{
}

/// A request of a kind that this library does not know is delivered as
/// long as a hook stands under `*`: it reaches every such hook, and its
/// payload is the body as it came.
pub proof fn lemma_unknown_kind_reaches_wildcard(
    table: Table,
    event: Seq<char>,
    delivery: Seq<char>,
    body: Seq<char>,
    payload: Event,
)
    requires
        table.contains_key(WILDCARD@),
        EventKind::named(event) is None,
        payload.agrees(event, body),
    ensures
        outcome_of(table, Some(event), Some(delivery), Some(body)) == Outcome::Delivered,
        reached(table, Some(event), Some(delivery), Some(body)) == listed(table, event) + table[WILDCARD@],
        payload matches Event::Opaque { raw } && raw@ == body,
{
}

} // verus!
