//! The record of which pads are linked, and what the steps of a plan do to
//! it. It is what the laws of the payload router are stated over.

use crate::names::{ElementId, Pad};
use crate::plan::{PadRef, Step};
use crate::error::ErrorView;
use crate::router::{link_steps, pad_payload_type, routing};
use vstd::prelude::*;

verus! {

/// A link from a pad of one element to a pad of another.
#[derive(Clone, Copy, Debug, PartialEq, Eq, Structural)]
pub struct Connection {
    pub from: ElementId,
    pub from_pad: PadRef,
    pub to: ElementId,
    pub to_pad: PadRef,
}

/// The link that a step makes, if it makes one. A link between two
/// elements runs from the output of the first to the input of the second.
pub open spec fn link_made(step: Step) -> Option<Connection> {
    match step {
        Step::Link { from, to } => Some(
            Connection {
                from,
                from_pad: PadRef::Static(Pad::Src),
                to,
                to_pad: PadRef::Static(Pad::Sink),
            },
        ),
        Step::LinkPads { from, from_pad, to, to_pad } => Some(
            Connection { from, from_pad, to, to_pad },
        ),
        _ => None,
    }
}

/// Whether a link runs from `from` to `to`.
pub open spec fn runs_between(link: Connection, from: ElementId, to: ElementId) -> bool {
    link.from == from && link.to == to
}

/// The links that there are once `step` has been performed, given those
/// that there were before: a linking step adds its link, an unlinking step
/// removes every link between its two elements, and the other steps leave
/// the links alone.
pub open spec fn linked_after(links: Set<Connection>, step: Step) -> Set<Connection> {
    match step {
        Step::Unlink { from, to } => links.filter(|c: Connection| !runs_between(c, from, to)),
        _ => match link_made(step) {
            Some(link) => links.insert(link),
            None => links,
        },
    }
}

/// The links that there are once `steps` have been performed in order.
pub open spec fn linked(links: Set<Connection>, steps: Seq<Step>) -> Set<Connection>
    decreases steps.len(),
{
    if steps.len() == 0 {
        links
    } else {
        linked_after(linked(links, steps.drop_last()), steps.last())
    }
}

/// Where no step unlinks, the links that there are in the end are those
/// that there were and those that one of the steps makes.
pub proof fn lemma_linked_without_unlinks(links: Set<Connection>, steps: Seq<Step>, c: Connection)
    requires
        forall|i: int| 0 <= i < steps.len() ==> !(#[trigger] steps[i] is Unlink),
    ensures
        linked(links, steps).contains(c) <==> links.contains(c) || exists|i: int|
            0 <= i < steps.len() && link_made(#[trigger] steps[i]) == Some(c),
    decreases steps.len(),
{
    if steps.len() > 0 {
        let earlier = steps.drop_last();
        assert forall|i: int| 0 <= i < earlier.len() implies !(#[trigger] earlier[i] is Unlink) by {
            assert(earlier[i] == steps[i]);
        }
        lemma_linked_without_unlinks(links, earlier, c);
        assert(!(steps[steps.len() - 1] is Unlink));
        if linked(links, steps).contains(c) && !links.contains(c) {
            if link_made(steps.last()) == Some(c) {
                assert(link_made(steps[steps.len() - 1]) == Some(c));
            } else {
                let i = choose|i: int|
                    0 <= i < earlier.len() && link_made(#[trigger] earlier[i]) == Some(c);
                assert(link_made(steps[i]) == Some(c));
            }
        }
        if exists|i: int| 0 <= i < steps.len() && link_made(#[trigger] steps[i]) == Some(c) {
            let i = choose|i: int| 0 <= i < steps.len() && link_made(#[trigger] steps[i]) == Some(c);
            if i < earlier.len() {
                assert(link_made(earlier[i]) == Some(c));
            }
        }
    }
}

/// The link that routing an added pad to `consumer` makes.
pub open spec fn routed_link(consumer: ElementId) -> Connection {
    Connection {
        from: ElementId::Session,
        from_pad: PadRef::Added,
        to: consumer,
        to_pad: PadRef::Static(Pad::Sink),
    }
}

/// Routing an added pad to a consumer leaves exactly one link from the
/// session element to the consumer, the new one, whatever was linked to
/// the consumer before; it leaves every other link as it was; and doing it
/// again changes nothing.
pub proof fn lemma_route_replaces(links: Set<Connection>, consumer: ElementId)
    ensures
        ({
            let after = linked(links, link_steps(consumer));
            &&& forall|c: Connection| #[trigger]
                after.contains(c) && runs_between(c, ElementId::Session, consumer) <==> c
                    == routed_link(consumer)
            &&& forall|c: Connection|
                !runs_between(c, ElementId::Session, consumer) ==> (#[trigger] after.contains(c)
                    <==> links.contains(c))
            &&& linked(after, link_steps(consumer)) == after
        }),
{
    lemma_link_steps(links, consumer);
    let after = linked(links, link_steps(consumer));
    lemma_link_steps(after, consumer);
    assert(linked(after, link_steps(consumer)) =~= after);
}

/// What the two steps of a routed link do to the links.
pub proof fn lemma_link_steps(links: Set<Connection>, consumer: ElementId)
    ensures
        linked(links, link_steps(consumer)) == links.filter(
            |c: Connection| !runs_between(c, ElementId::Session, consumer),
        ).insert(routed_link(consumer)),
{
    let steps = link_steps(consumer);
    let first = steps.drop_last();
    assert(first.last() == steps[0]);
    assert(first.drop_last() =~= Seq::<Step>::empty());
    assert(linked(links, first.drop_last()) == links);
    assert(linked(links, first) == linked_after(links, steps[0]));
    assert(linked(links, steps) == linked_after(linked(links, first), steps[1]));
}

/// The links that there are once the router has dealt with an added pad
/// of this name and its plan, if it made one, has been performed.
pub open spec fn links_after_pad(
    table: Map<u32, ElementId>,
    links: Set<Connection>,
    name: Seq<char>,
) -> Set<Connection> {
    match routing(table, name) {
        Ok(consumer) => linked(links, link_steps(consumer)),
        Err(_) => links,
    }
}

/// A pad whose payload type has no entry in the routing table is rejected
/// as of unknown payload type, and no link is made or broken for it: the
/// links of every consumer stay as they were.
pub proof fn lemma_unknown_payload_type_rejected(
    table: Map<u32, ElementId>,
    links: Set<Connection>,
    name: Seq<char>,
    payload_type: u32,
)
    requires
        pad_payload_type(name) == Some(payload_type),
        !table.contains_key(payload_type),
    ensures
        routing(table, name) == Err::<ElementId, ErrorView>(ErrorView::UnknownPT(payload_type)),
        links_after_pad(table, links, name) == links,
{
}

/// A pad whose payload type has an entry in the routing table is linked to
/// the consumer of that entry. Afterwards exactly one link runs from the
/// session element to the consumer, the one to its sink pad, whatever was
/// linked there before; and when the router deals with the same pad again,
/// the links stay as they are.
pub proof fn lemma_known_payload_type_linked(
    table: Map<u32, ElementId>,
    links: Set<Connection>,
    name: Seq<char>,
    payload_type: u32,
)
    requires
        pad_payload_type(name) == Some(payload_type),
        table.contains_key(payload_type),
    ensures
        routing(table, name) == Ok::<ElementId, ErrorView>(table[payload_type]),
        ({
            let consumer = table[payload_type];
            let after = links_after_pad(table, links, name);
            &&& forall|c: Connection| #[trigger]
                after.contains(c) && runs_between(c, ElementId::Session, consumer) <==> c
                    == routed_link(consumer)
            &&& links_after_pad(table, after, name) == after
        }),
{
    lemma_route_replaces(links, table[payload_type]);
}

/// The links between the elements of a pipeline, as far as the steps that
/// were performed have made and broken them.
#[derive(Clone, Debug)]
pub struct Wiring {
    links: Vec<Connection>,
}

impl View for Wiring {
    type V = Set<Connection>;

    closed spec fn view(&self) -> Set<Connection> {
        self.links@.to_set()
    }
}

impl Wiring {
    /// Whether the record is in order: it holds no link twice.
    pub closed spec fn wf(&self) -> bool {
        self.links@.no_duplicates()
    }

    /// The record of a pipeline in which nothing is linked.
    pub fn new() -> (wiring: Wiring)
        ensures
            wiring.wf(),
            wiring@ == Set::<Connection>::empty(),
    {
        let wiring = Wiring { links: Vec::new() };
        assert(wiring.links@.to_set() =~= Set::<Connection>::empty());
        wiring
    }

    /// Whether `link` is there.
    pub fn holds(&self, link: Connection) -> (b: bool)
        ensures
            b == self@.contains(link),
    {
        let mut i: usize = 0;
        while i < self.links.len()
            invariant
                i <= self.links@.len(),
                forall|j: int| 0 <= j < i ==> self.links@[j] != link,
            decreases self.links@.len() - i,
        {
            if self.links[i] == link {
                return true;
            }
            i = i + 1;
        }
        false
    }

    /// The links that run from `from` to `to`, each once.
    pub fn between(&self, from: ElementId, to: ElementId) -> (found: Vec<Connection>)
        requires
            self.wf(),
        ensures
            found@.no_duplicates(),
            forall|c: Connection| #[trigger]
                found@.contains(c) <==> self@.contains(c) && runs_between(c, from, to),
    {
        let mut found: Vec<Connection> = Vec::new();
        let mut i: usize = 0;
        while i < self.links.len()
            invariant
                i <= self.links@.len(),
                self.links@.no_duplicates(),
                found@.no_duplicates(),
                forall|c: Connection| #[trigger]
                    found@.contains(c) <==> self.links@.take(i as int).contains(c) && runs_between(
                        c,
                        from,
                        to,
                    ),
            decreases self.links@.len() - i,
        {
            let link = self.links[i];
            proof {
                lemma_take_next(self.links@, i as int);
            }
            if link.from == from && link.to == to {
                proof {
                    if found@.contains(link) {
                        let seen = self.links@.take(i as int);
                        let j = choose|j: int| 0 <= j < seen.len() && seen[j] == link;
                        assert(self.links@[j] == link);
                    }
                    lemma_push_contains(found@, link);
                }
                found.push(link);
            }
            i = i + 1;
        }
        proof {
            assert(self.links@.take(self.links@.len() as int) =~= self.links@);
        }
        found
    }

    /// Takes note that `step` has been performed.
    pub fn perform(&mut self, step: Step)
        requires
            old(self).wf(),
        ensures
            final(self).wf(),
            final(self)@ == linked_after(old(self)@, step),
    {
        match step {
            Step::Unlink { from, to } => {
                let mut kept: Vec<Connection> = Vec::new();
                let mut i: usize = 0;
                while i < self.links.len()
                    invariant
                        i <= self.links@.len(),
                        self.links@.no_duplicates(),
                        kept@.no_duplicates(),
                        forall|c: Connection| #[trigger]
                            kept@.contains(c) <==> self.links@.take(i as int).contains(c)
                                && !runs_between(c, from, to),
                    decreases self.links@.len() - i,
                {
                    let link = self.links[i];
                    proof {
                        lemma_take_next(self.links@, i as int);
                    }
                    if !(link.from == from && link.to == to) {
                        proof {
                            if kept@.contains(link) {
                                let seen = self.links@.take(i as int);
                                let j = choose|j: int| 0 <= j < seen.len() && seen[j] == link;
                                assert(self.links@[j] == link);
                            }
                            lemma_push_contains(kept@, link);
                        }
                        kept.push(link);
                    }
                    i = i + 1;
                }
                proof {
                    assert(self.links@.take(self.links@.len() as int) =~= self.links@);
                    assert(kept@.to_set() =~= self.links@.to_set().filter(
                        |c: Connection| !runs_between(c, from, to),
                    ));
                }
                self.links = kept;
            },
            Step::Link { from, to } => {
                self.insert(
                    Connection {
                        from,
                        from_pad: PadRef::Static(Pad::Src),
                        to,
                        to_pad: PadRef::Static(Pad::Sink),
                    },
                );
            },
            Step::LinkPads { from, from_pad, to, to_pad } => {
                self.insert(Connection { from, from_pad, to, to_pad });
            },
            _ => {},
        }
    }

    /// Takes note of a new link.
    fn insert(&mut self, link: Connection)
        requires
            old(self).wf(),
        ensures
            final(self).wf(),
            final(self)@ == old(self)@.insert(link),
    {
        if !self.holds(link) {
            proof {
                lemma_push_contains(self.links@, link);
                assert(self.links@.push(link).to_set() =~= self.links@.to_set().insert(link));
            }
            self.links.push(link);
        } else {
            proof {
                assert(self.links@.to_set().insert(link) =~= self.links@.to_set());
            }
        }
    }

    /// Takes note that `steps` have been performed, in order.
    pub fn perform_all(&mut self, steps: &Vec<Step>)
        requires
            old(self).wf(),
        ensures
            final(self).wf(),
            final(self)@ == linked(old(self)@, steps@),
    {
        let mut i: usize = 0;
        while i < steps.len()
            invariant
                i <= steps@.len(),
                self.wf(),
                self@ == linked(old(self)@, steps@.take(i as int)),
            decreases steps@.len() - i,
        {
            proof {
                assert(steps@.take(i as int + 1).drop_last() =~= steps@.take(i as int));
            }
            self.perform(steps[i]);
            i = i + 1;
        }
        proof {
            assert(steps@.take(steps@.len() as int) =~= steps@);
        }
    }
}

/// The first `i + 1` items of a sequence hold what the first `i` hold, and
/// the item at `i`.
proof fn lemma_take_next<T>(s: Seq<T>, i: int)
    requires
        0 <= i < s.len(),
    ensures
        forall|x: T| #[trigger] s.take(i + 1).contains(x) <==> s.take(i).contains(x) || x == s[i],
{
    let shorter = s.take(i);
    let longer = s.take(i + 1);
    assert forall|x: T| #[trigger] longer.contains(x) <==> shorter.contains(x) || x == s[i] by {
        if longer.contains(x) {
            let j = choose|j: int| 0 <= j < longer.len() && longer[j] == x;
            if j < i {
                assert(shorter[j] == x);
            }
        }
        if shorter.contains(x) {
            let j = choose|j: int| 0 <= j < shorter.len() && shorter[j] == x;
            assert(longer[j] == x);
        }
        if x == s[i] {
            assert(longer[i] == x);
        }
    }
}

/// A sequence with one more item holds what it held, and that item; and it
/// holds nothing twice if it held nothing twice and not that item.
proof fn lemma_push_contains<T>(s: Seq<T>, item: T)
    ensures
        forall|x: T| #[trigger] s.push(item).contains(x) <==> s.contains(x) || x == item,
        s.no_duplicates() && !s.contains(item) ==> s.push(item).no_duplicates(),
{
    let longer = s.push(item);
    assert forall|x: T| #[trigger] longer.contains(x) <==> s.contains(x) || x == item by {
        if longer.contains(x) {
            let j = choose|j: int| 0 <= j < longer.len() && longer[j] == x;
            if j < s.len() {
                assert(s[j] == x);
            }
        }
        if s.contains(x) {
            let j = choose|j: int| 0 <= j < s.len() && s[j] == x;
            assert(longer[j] == x);
        }
        if x == item {
            assert(longer[s.len() as int] == x);
        }
    }
}

} // verus!
