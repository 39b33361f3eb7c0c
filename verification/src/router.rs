//! The payload router: when the session element adds an output pad for a
//! stream it receives, the router reads the payload type out of the pad's
//! name, looks up the consumer of that payload type, and plans the link.

use crate::args::Role;
use crate::caps::OPUS_PAYLOAD_TYPE;
use crate::error::{ErrorView, PipelineError};
use crate::names::{ElementId, Pad};
use crate::plan::{PadRef, Plan, Step};
use crate::text::{parse_u32, split, split_fields, unsigned_literal};
use vstd::prelude::*;

verus! {

/// The character between the fields of a pad name.
pub const FIELD_DELIMITER: char = '_';

/// The position of the payload type among the fields of a pad name,
/// counted from zero.
pub const PAYLOAD_TYPE_FIELD: usize = 5;

/// The payload type that the name of an added pad gives: its sixth field,
/// where the name has one and it is an unsigned decimal number of 32 bits.
pub open spec fn pad_payload_type(name: Seq<char>) -> Option<u32> {
    let fields = split_fields(name, FIELD_DELIMITER);
    if fields.len() > PAYLOAD_TYPE_FIELD {
        match unsigned_literal(fields[PAYLOAD_TYPE_FIELD as int], u32::MAX as nat) {
            Some(n) => Some(n as u32),
            None => None,
        }
    } else {
        None
    }
}

/// Reads the payload type out of the name of an added pad. A name without
/// a sixth field, or with one that is no number, is reported as malformed.
pub fn payload_type_of(pad_name: &str) -> (r: Result<u32, PipelineError>)
    ensures
        match pad_payload_type(pad_name@) {
            Some(payload_type) => r == Ok::<u32, PipelineError>(payload_type),
            None => r matches Err(e) && e@ == ErrorView::MalformedPadName(pad_name@),
        },
{
    let fields = split(pad_name, FIELD_DELIMITER);
    if fields.len() > PAYLOAD_TYPE_FIELD {
        match parse_u32(fields[PAYLOAD_TYPE_FIELD]) {
            Some(payload_type) => {
                return Ok(payload_type);
            },
            None => {},
        }
    }
    Err(PipelineError::MalformedPadName(String::from_str(pad_name)))
}

/// The steps that link the added pad to `consumer`: first every link from
/// the session element to the consumer is broken, then the pad is linked
/// to the consumer's sink pad.
pub open spec fn link_steps(consumer: ElementId) -> Seq<Step> {
    seq![
        Step::Unlink { from: ElementId::Session, to: consumer },
        Step::LinkPads {
            from: ElementId::Session,
            from_pad: PadRef::Added,
            to: consumer,
            to_pad: PadRef::Static(Pad::Sink),
        },
    ]
}

/// The entries of a routing table, one after the other; a later entry for
/// a payload type replaces an earlier one.
pub open spec fn table_of(routes: Seq<(u32, ElementId)>) -> Map<u32, ElementId>
    decreases routes.len(),
{
    if routes.len() == 0 {
        Map::<u32, ElementId>::empty()
    } else {
        table_of(routes.drop_last()).insert(routes.last().0, routes.last().1)
    }
}

/// The routing table of a role.
pub open spec fn table_for(role: Role) -> Map<u32, ElementId> {
    if role.sends() {
        Map::<u32, ElementId>::empty()
    } else {
        Map::<u32, ElementId>::empty().insert(OPUS_PAYLOAD_TYPE, ElementId::OpusDepay)
    }
}

/// What the router decides for a pad name under a routing table: the
/// consumer to link the pad to, or the reason why it is linked to nothing.
pub open spec fn routing(table: Map<u32, ElementId>, name: Seq<char>) -> Result<
    ElementId,
    ErrorView,
> {
    match pad_payload_type(name) {
        None => Err(ErrorView::MalformedPadName(name)),
        Some(payload_type) => if table.contains_key(payload_type) {
            Ok(table[payload_type])
        } else {
            Err(ErrorView::UnknownPT(payload_type))
        },
    }
}

/// The table that says which element consumes the stream of which payload
/// type. Supporting another payload type takes another entry, nothing
/// else.
#[derive(Clone, Debug)]
pub struct Router {
    routes: Vec<(u32, ElementId)>,
}

impl View for Router {
    type V = Map<u32, ElementId>;

    closed spec fn view(&self) -> Map<u32, ElementId> {
        table_of(self.routes@)
    }
}

impl Router {
    /// Whether the table is in order: no stream is routed back into the
    /// session element.
    pub open spec fn wf(&self) -> bool {
        forall|payload_type: u32| #[trigger]
            self@.contains_key(payload_type) ==> self@[payload_type] != ElementId::Session
    }

    /// The router that knows no payload type.
    pub fn new() -> (router: Router)
        ensures
            router.wf(),
            router@ == Map::<u32, ElementId>::empty(),
    {
        Router { routes: Vec::new() }
    }

    /// The router of a receiver: Opus media, payload type 96, goes to the
    /// depayloader, and nothing else goes anywhere.
    pub fn opus() -> (router: Router)
        ensures
            router.wf(),
            router@ == Map::<u32, ElementId>::empty().insert(
                OPUS_PAYLOAD_TYPE,
                ElementId::OpusDepay,
            ),
    {
        let mut router = Router::new();
        router.add_route(OPUS_PAYLOAD_TYPE, ElementId::OpusDepay);
        router
    }

    /// The router of a role: that of a receiver for the receivers, and one
    /// that knows no payload type for the transmitters, whose session
    /// element adds no pads for received streams.
    pub fn for_role(role: Role) -> (router: Router)
        ensures
            router.wf(),
            router@ == table_for(role),
    {
        if role.is_transmitter() {
            Router::new()
        } else {
            Router::opus()
        }
    }

    /// Routes `payload_type` to `consumer` from now on, and says whether it
    /// did: the session element itself cannot be a consumer.
    pub fn add_route(&mut self, payload_type: u32, consumer: ElementId) -> (ok: bool)
        requires
            old(self).wf(),
        ensures
            final(self).wf(),
            ok == (consumer != ElementId::Session),
            ok ==> final(self)@ == old(self)@.insert(payload_type, consumer),
            !ok ==> final(self)@ == old(self)@,
    {
        if consumer == ElementId::Session {
            return false;
        }
        proof {
            assert(self.routes@.push((payload_type, consumer)).drop_last() =~= self.routes@);
        }
        self.routes.push((payload_type, consumer));
        true
    }

    /// The consumer of a payload type. A payload type without an entry is
    /// rejected as unknown.
    pub fn consumer_for(&self, payload_type: u32) -> (r: Result<ElementId, PipelineError>)
        ensures
            self@.contains_key(payload_type) ==> r == Ok::<ElementId, PipelineError>(
                self@[payload_type],
            ),
            !self@.contains_key(payload_type) ==> (r matches Err(e) && e@ == ErrorView::UnknownPT(
                payload_type,
            )),
    {
        let mut found: Option<ElementId> = None;
        let mut i: usize = 0;
        while i < self.routes.len()
            invariant
                i <= self.routes@.len(),
                found is Some <==> table_of(self.routes@.take(i as int)).contains_key(payload_type),
                found matches Some(c) ==> table_of(self.routes@.take(i as int))[payload_type] == c,
            decreases self.routes@.len() - i,
        {
            proof {
                assert(self.routes@.take(i as int + 1).drop_last() =~= self.routes@.take(i as int));
            }
            if self.routes[i].0 == payload_type {
                found = Some(self.routes[i].1);
            }
            i = i + 1;
        }
        proof {
            assert(self.routes@.take(self.routes@.len() as int) =~= self.routes@);
        }
        match found {
            Some(consumer) => Ok(consumer),
            None => Err(PipelineError::UnknownPT(payload_type)),
        }
    }

    /// Decides what an added pad is for, by its name: the consumer it is
    /// to be linked to, or why it is linked to nothing.
    pub fn route(&self, pad_name: &str) -> (r: Result<ElementId, PipelineError>)
        ensures
            match routing(self@, pad_name@) {
                Ok(consumer) => r == Ok::<ElementId, PipelineError>(consumer),
                Err(error) => r matches Err(e) && e@ == error,
            },
    {
        match payload_type_of(pad_name) {
            Ok(payload_type) => self.consumer_for(payload_type),
            Err(e) => Err(e),
        }
    }

    /// Plans the link of an added pad, by its name: the steps that link it
    /// to the consumer of its payload type, in a pipeline that holds the
    /// session element and the consumer. A pad of an unknown payload type
    /// is rejected and nothing is planned for it.
    pub fn connect(&self, pad_name: &str) -> (r: Result<Plan, PipelineError>)
        requires
            self.wf(),
        ensures
            match routing(self@, pad_name@) {
                Ok(consumer) => r matches Ok(plan) && plan.wf() && plan@ == link_steps(consumer)
                    && plan.given() == set![ElementId::Session, consumer],
                Err(error) => r matches Err(e) && e@ == error,
            },
    {
        match self.route(pad_name) {
            Ok(consumer) => Ok(link_plan(consumer)),
            Err(e) => Err(e),
        }
    }
}

/// The plan that links the added pad to `consumer`, in a pipeline that
/// holds the session element and the consumer.
fn link_plan(consumer: ElementId) -> (plan: Plan)
    requires
        consumer != ElementId::Session,
    ensures
        plan.wf(),
        plan@ == link_steps(consumer),
        plan.given() == set![ElementId::Session, consumer],
{
    let mut given: Vec<ElementId> = Vec::new();
    given.push(ElementId::Session);
    given.push(consumer);
    proof {
        assert(given@[0] == ElementId::Session);
        assert(given@[1] == consumer);
        assert(given@.to_set() =~= set![ElementId::Session, consumer]);
    }
    let mut plan = Plan::within(given);
    plan.push(Step::Unlink { from: ElementId::Session, to: consumer });
    plan.push(
        Step::LinkPads {
            from: ElementId::Session,
            from_pad: PadRef::Added,
            to: consumer,
            to_pad: PadRef::Static(Pad::Sink),
        },
    );
    plan
}

/// A payload type other than 96 is unknown to the router of a receiver.
pub proof fn lemma_opus_only(router: Map<u32, ElementId>, name: Seq<char>, payload_type: u32)
    requires
        router == Map::<u32, ElementId>::empty().insert(OPUS_PAYLOAD_TYPE, ElementId::OpusDepay),
        pad_payload_type(name) == Some(payload_type),
    ensures
        payload_type != OPUS_PAYLOAD_TYPE ==> routing(router, name) == Err::<
            ElementId,
            ErrorView,
        >(ErrorView::UnknownPT(payload_type)),
        payload_type == OPUS_PAYLOAD_TYPE ==> routing(router, name) == Ok::<ElementId, ErrorView>(
            ElementId::OpusDepay,
        ),
{
}

} // verus!
