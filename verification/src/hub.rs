//! The registry of hooks.
//!
//! A hub maps the name of a kind of event to the hooks that registered for
//! it, in the order in which they did. Hooks under the name `*` are meant
//! for deliveries of every kind.
//!
//! A hub holds a handful of names. They are kept in a vector, each with
//! its hooks, and searched in order; that no name stands twice and that no
//! name stands without a hook is the hub's invariant.

use crate::delivery::Delivery;
use crate::hook::{AuthenticateHook, Hook};
use crate::text::str_eq;
use vstd::prelude::*;

verus! {

/// The name under which hooks register for deliveries of every kind.
pub const WILDCARD: &'static str = "*";

/// A hook as a hub keeps it.
pub struct BoxedHook {
    pub hook: Box<dyn Hook>,
}

impl BoxedHook {
    /// `hook` as a hub keeps it.
    pub open spec fn of<H: Hook + 'static>(hook: H) -> BoxedHook {
        BoxedHook { hook: Box::new(hook) }
    }

    /// Boxes `hook`.
    pub fn new<H: Hook + 'static>(hook: H) -> (boxed: BoxedHook)
        ensures
            boxed == BoxedHook::of(hook),
    {
        BoxedHook { hook: Box::new(hook) }
    }
}

impl Hook for BoxedHook {
    open spec fn accepts(&self, delivery: &Delivery) -> bool {
        self.hook.accepts(delivery)
    }

    fn handle(&self, delivery: &Delivery) {
        self.hook.handle(delivery)
    }
}

/// What a hub holds: for each name, the hooks registered under it, first
/// come first.
pub type Table = Map<Seq<char>, Seq<BoxedHook>>;

/// The hooks registered under `kind`; none, if the name is not in the table.
pub open spec fn listed(table: Table, kind: Seq<char>) -> Seq<BoxedHook> {
    if table.contains_key(kind) {
        table[kind]
    } else {
        Seq::empty()
    }
}

/// The table after one more hook has registered under `kind`.
pub open spec fn registered(table: Table, kind: Seq<char>, hook: BoxedHook) -> Table {
    table.insert(kind, listed(table, kind).push(hook))
}

/// The hooks that a delivery of the kind `event` goes to: those registered
/// under its name, then those registered under `*`. `None` when neither
/// name is in the table.
pub open spec fn resolve(table: Table, event: Seq<char>) -> Option<Seq<BoxedHook>> {
    if table.contains_key(event) || table.contains_key(WILDCARD@) {
        Some(listed(table, event) + listed(table, WILDCARD@))
    } else {
        None
    }
}

/// Whether a hook registered under `kind` can be handed `delivery`: the
/// delivery is well formed, and of that kind unless the hook registered
/// for all.
pub open spec fn routed(kind: Seq<char>, delivery: &Delivery) -> bool {
    delivery.wf() && (kind == WILDCARD@ || delivery.event@ == kind)
}

/// Whether `gate` checks signatures under `secret` in front of `hook`.
pub open spec fn guards<H: Hook + 'static>(
    gate: AuthenticateHook<H>,
    secret: Seq<char>,
    hook: H,
) -> bool {
    gate.secret() == secret && gate.inner() == hook
}

/// Registering a hook under a name puts it behind the hooks already under
/// that name, and changes no other name's hooks.
pub proof fn lemma_registration_appends(
    table: Table,
    kind: Seq<char>,
    hook: BoxedHook,
    event: Seq<char>,
)
    ensures
        listed(registered(table, kind, hook), event) == if event == kind {
            listed(table, kind).push(hook)
        } else {
            listed(table, event)
        },
{
}

/// After `hook` has registered under a name other than `*` and then `wild`
/// under `*`, a delivery of that name goes to `hook` and then to `wild`; a
/// delivery of any other name goes to `wild` alone; and with no hook
/// registered a delivery goes nowhere.
pub proof fn lemma_explicit_then_wildcard(
    kind: Seq<char>,
    other: Seq<char>,
    hook: BoxedHook,
    wild: BoxedHook,
)
    requires
        kind != WILDCARD@,
        other != kind,
        other != WILDCARD@,
    ensures
        ({
            let table = registered(registered(Map::empty(), kind, hook), WILDCARD@, wild);
            &&& resolve(table, kind) == Some(seq![hook, wild])
            &&& resolve(table, other) == Some(seq![wild])
        }),
        resolve(Map::empty(), other) is None,
{
    let table = registered(registered(Map::empty(), kind, hook), WILDCARD@, wild);
    assert(listed(table, kind) + listed(table, WILDCARD@) =~= seq![hook, wild]);
    assert(listed(table, other) + listed(table, WILDCARD@) =~= seq![wild]);
}

/// Hooks registered under their own name always come before those
/// registered under `*`, each group in the order of registration.
pub proof fn lemma_resolution_order(table: Table, event: Seq<char>, i: int)
    requires
        resolve(table, event) is Some,
        0 <= i < resolve(table, event).unwrap().len(),
    ensures
        resolve(table, event).unwrap()[i] == if i < listed(table, event).len() {
            listed(table, event)[i]
        } else {
            listed(table, WILDCARD@)[i - listed(table, event).len()]
        },
{
}

/// A registration adds a name to the table if the name is new, and none
/// otherwise: the size of a table counts names, not hooks.
pub proof fn lemma_registration_counts_names(table: Table, kind: Seq<char>, hook: BoxedHook)
    requires
        table.dom().finite(),
    ensures
        registered(table, kind, hook).dom().finite(),
        registered(table, kind, hook).dom().len() == table.dom().len() + if table.contains_key(
            kind,
        ) {
            0int
        } else {
            1int
        },
{
}

/// Two hooks under one name and a third under `*` make a table of two
/// names.
pub proof fn lemma_two_names(kind: Seq<char>, first: BoxedHook, second: BoxedHook, wild: BoxedHook)
    requires
        kind != WILDCARD@,
    ensures
        registered(
            registered(registered(Map::empty(), kind, first), kind, second),
            WILDCARD@,
            wild,
        ).dom().len() == 2,
{
    let one = registered(Map::empty(), kind, first);
    let two = registered(one, kind, second);
    lemma_registration_counts_names(Map::empty(), kind, first);
    lemma_registration_counts_names(one, kind, second);
    lemma_registration_counts_names(two, WILDCARD@, wild);
}

/// The hooks registered under one name.
struct Subscription {
    kind: String,
    hooks: Vec<BoxedHook>,
}

/// Whether `kind` is the name at the place `i`.
spec fn at(subscriptions: Seq<Subscription>, kind: Seq<char>, i: int) -> bool {
    0 <= i < subscriptions.len() && subscriptions[i].kind@ == kind
}

/// No name occurs twice.
spec fn distinct(subscriptions: Seq<Subscription>) -> bool {
    forall|i: int, j: int|
        0 <= i < j < subscriptions.len() ==> subscriptions[i].kind@ != subscriptions[j].kind@
}

/// Every hook accepts what can be routed to the name it stands under.
spec fn prepared(subscriptions: Seq<Subscription>) -> bool {
    forall|i: int, j: int, delivery: &Delivery|
        0 <= i < subscriptions.len() && 0 <= j < subscriptions[i].hooks@.len() && routed(
            subscriptions[i].kind@,
            delivery,
        ) ==> #[trigger] subscriptions[i].hooks@[j].accepts(delivery)
}

/// Every name has at least one hook under it.
spec fn populated(subscriptions: Seq<Subscription>) -> bool {
    forall|i: int|
        0 <= i < subscriptions.len() ==> (#[trigger] subscriptions[i]).hooks@.len() > 0
}

/// The names, in the order in which they first came.
spec fn names(subscriptions: Seq<Subscription>) -> Seq<Seq<char>> {
    Seq::new(subscriptions.len(), |i: int| subscriptions[i].kind@)
}

/// The table that the subscriptions make.
spec fn table_of(subscriptions: Seq<Subscription>) -> Table {
    Map::new(
        |kind: Seq<char>| exists|i: int| at(subscriptions, kind, i),
        |kind: Seq<char>| subscriptions[choose|i: int| at(subscriptions, kind, i)].hooks@,
    )
}

/// The table holds under a name the hooks of the one subscription of that
/// name.
proof fn lemma_table_at(subscriptions: Seq<Subscription>, kind: Seq<char>, i: int)
    requires
        distinct(subscriptions),
        at(subscriptions, kind, i),
    ensures
        table_of(subscriptions).contains_key(kind),
        table_of(subscriptions)[kind] == subscriptions[i].hooks@,
{
    let chosen = choose|k: int| at(subscriptions, kind, k);
    assert(chosen == i);
}

/// Putting `fresh` at a place, or behind the last, registers its hooks
/// under its name and leaves every other name alone.
proof fn lemma_table_put(before: Seq<Subscription>, after: Seq<Subscription>, fresh: Subscription)
    requires
        distinct(before),
        (exists|i: int| at(before, fresh.kind@, i) && after == before.update(i, fresh)) || ((
        forall|i: int| !at(before, fresh.kind@, i)) && after == before.push(fresh)),
    ensures
        distinct(after),
        table_of(after) == table_of(before).insert(fresh.kind@, fresh.hooks@),
{
    let place = if exists|i: int| at(before, fresh.kind@, i) && after == before.update(i, fresh) {
        choose|i: int| at(before, fresh.kind@, i) && after == before.update(i, fresh)
    } else {
        before.len() as int
    };
    assert(at(after, fresh.kind@, place));
    assert forall|k: int| 0 <= k < after.len() && k != place implies after[k] == before[k] && at(
        before,
        after[k].kind@,
        k,
    ) by {}
    assert(distinct(after));
    let wanted = table_of(before).insert(fresh.kind@, fresh.hooks@);
    assert forall|kind: Seq<char>| #[trigger]
        table_of(after).dom().contains(kind) implies wanted.dom().contains(kind) by {
        let k = choose|k: int| at(after, kind, k);
        if k != place {
            assert(at(before, kind, k));
        }
    }
    assert forall|kind: Seq<char>| #[trigger] wanted.dom().contains(kind) implies table_of(
        after,
    ).dom().contains(kind) && table_of(after)[kind] == wanted[kind] by {
        if kind == fresh.kind@ {
            lemma_table_at(after, kind, place);
        } else {
            let k = choose|k: int| at(before, kind, k);
            assert(k != place);
            assert(at(after, kind, k));
            lemma_table_at(before, kind, k);
            lemma_table_at(after, kind, k);
        }
    }
    assert(table_of(after) =~= wanted);
}

/// The names are the keys of the table, each once.
proof fn lemma_names(subscriptions: Seq<Subscription>)
    requires
        distinct(subscriptions),
    ensures
        table_of(subscriptions).dom().finite(),
        table_of(subscriptions).dom().len() == subscriptions.len(),
{
    let names = names(subscriptions);
    let keys = table_of(subscriptions).dom();
    assert forall|kind: Seq<char>| names.contains(kind) <==> keys.contains(kind) by {
        if names.contains(kind) {
            let i = choose|i: int| 0 <= i < names.len() && names[i] == kind;
            assert(at(subscriptions, kind, i));
        }
        if keys.contains(kind) {
            let i = choose|i: int| at(subscriptions, kind, i);
            assert(names[i] == kind);
        }
    }
    assert(names.to_set() =~= keys);
    vstd::seq_lib::seq_to_set_is_finite(names);
    names.unique_seq_to_set();
}

/// A hub is a registry of hooks.
pub struct Hub {
    subscriptions: Vec<Subscription>,
}

impl Default for Hub {
    fn default() -> (hub: Hub)
        ensures
            hub@ == Map::<Seq<char>, Seq<BoxedHook>>::empty(),
    {
        Hub::new()
    }
}

impl Hub {
    #[verifier::type_invariant]
    spec fn inv(&self) -> bool {
        &&& distinct(self.subscriptions@)
        &&& prepared(self.subscriptions@)
        &&& populated(self.subscriptions@)
    }

    /// The table of this hub.
    pub closed spec fn view(&self) -> Table {
        table_of(self.subscriptions@)
    }

    /// Constructs a hub without hooks.
    pub fn new() -> (hub: Hub)
        ensures
            hub@ == Map::<Seq<char>, Seq<BoxedHook>>::empty(),
    {
        let hub = Hub { subscriptions: Vec::new() };
        assert(hub@ =~= Map::<Seq<char>, Seq<BoxedHook>>::empty());
        hub
    }

    /// The place of `kind` among the names.
    fn find(&self, kind: &str) -> (found: Option<usize>)
        ensures
            match found {
                Some(i) => at(self.subscriptions@, kind@, i as int),
                None => forall|i: int| !at(self.subscriptions@, kind@, i),
            },
    {
        let mut i: usize = 0;
        while i < self.subscriptions.len()
            invariant
                i <= self.subscriptions@.len(),
                forall|j: int| 0 <= j < i ==> !at(self.subscriptions@, kind@, j),
            decreases self.subscriptions@.len() - i,
        {
            if str_eq(self.subscriptions[i].kind.as_str(), kind) {
                return Some(i);
            }
            i += 1;
        }
        None
    }

    /// The hooks registered under `kind`: at least one, and each accepts
    /// what can be routed to that name.
    pub fn get(&self, kind: &str) -> (hooks: Option<&Vec<BoxedHook>>)
        ensures
            hooks is Some <==> self@.contains_key(kind@),
            hooks matches Some(list) ==> {
                &&& list@ == self@[kind@]
                &&& list@.len() > 0
                &&& forall|j: int, delivery: &Delivery|
                    0 <= j < list@.len() && routed(kind@, delivery) ==> #[trigger] list@[j].accepts(
                        delivery,
                    )
            },
    {
        proof {
            use_type_invariant(self);
        }
        match self.find(kind) {
            Some(i) => {
                proof {
                    lemma_table_at(self.subscriptions@, kind@, i as int);
                }
                Some(&self.subscriptions[i].hooks)
            },
            None => None,
        }
    }

    /// Adds a hook to those interested in deliveries of the kind `event`.
    /// Under `*` the hook is interested in every delivery.
    ///
    /// The hook must accept what will be routed to it. A hook that states
    /// no condition of its own does; of a closure Verus learns it from
    /// `lemma_function_accepts`.
    pub fn handle<H: Hook + 'static>(&mut self, event: &str, hook: H)
        requires
            forall|delivery: &Delivery| routed(event@, delivery) ==> hook.accepts(delivery),
        ensures
            final(self)@ == registered(old(self)@, event@, BoxedHook::of(hook)),
    {
        proof {
            use_type_invariant(&*self);
        }
        let ghost before = self.subscriptions@;
        let boxed = BoxedHook::new(hook);
        let found = self.find(event);
        let mut subscriptions: Vec<Subscription> = Vec::new();
        core::mem::swap(&mut self.subscriptions, &mut subscriptions);
        match found {
            Some(i) => {
                proof {
                    lemma_table_at(before, event@, i as int);
                }
                subscriptions[i].hooks.push(boxed);
                assert(subscriptions@ =~= before.update(i as int, subscriptions@[i as int]));
            },
            None => {
                let mut hooks: Vec<BoxedHook> = Vec::new();
                hooks.push(boxed);
                subscriptions.push(Subscription { kind: event.to_owned(), hooks });
                assert(!table_of(before).contains_key(event@));
                assert(Seq::<BoxedHook>::empty().push(boxed) =~= subscriptions@.last().hooks@);
            },
        }
        proof {
            let fresh = if found is Some {
                subscriptions@[found.unwrap() as int]
            } else {
                subscriptions@.last()
            };
            lemma_table_put(before, subscriptions@, fresh);
            assert(prepared(subscriptions@));
            assert(populated(subscriptions@));
        }
        core::mem::swap(&mut self.subscriptions, &mut subscriptions);
    }

    /// Adds a hook that only sees the deliveries of the kind `event` whose
    /// signature is authentic under `secret`.
    ///
    /// The hook need accept only what the signature check lets through.
    pub fn handle_authenticated<H: Hook + 'static>(&mut self, event: &str, secret: &str, hook: H)
        requires
            forall|gate: AuthenticateHook<H>, delivery: &Delivery|
                guards(gate, secret@, hook) && routed(event@, delivery) && gate.admits(delivery)
                    ==> hook.accepts(delivery),
        ensures
            exists|gate: AuthenticateHook<H>|
                guards(gate, secret@, hook) && final(self)@ == registered(
                    old(self)@,
                    event@,
                    #[trigger] BoxedHook::of(gate),
                ),
    {
        let gate = AuthenticateHook::new(secret, hook);
        self.handle(event, gate);
    }

    /// The number of names that hooks are registered under.
    pub fn len(&self) -> (count: usize)
        ensures
            self@.dom().finite(),
            count == self@.dom().len(),
    {
        proof {
            use_type_invariant(self);
            lemma_names(self.subscriptions@);
        }
        self.subscriptions.len()
    }
}

} // verus!
