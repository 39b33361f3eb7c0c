//! Plans: the operations on the media framework that build a pipeline or
//! answer one of its requests, as a list of plain values in the order in
//! which they are to be performed.

use crate::caps::Caps;
use crate::names::{lemma_instance_names_differ, ElementId, Pad, Property, Signal};
use vstd::prelude::*;

verus! {

/// The value that a property is set to.
#[derive(Clone, Copy, Debug, PartialEq, Eq, Structural)]
pub enum Value {
    Flag(bool),
    Int(i32),
    UInt(u32),
    Long(i64),
    ULong(u64),
    /// The member of the property's enumeration with this number.
    Choice(i32),
    Caps(Caps),
    /// The destination address of the configuration, as it was written.
    Address,
    /// The tone frequency of the configuration, as it was written.
    Frequency,
    /// The storage that the last `FetchStorage` step obtained.
    InternalStorage,
}

/// A pad of an element, by the way to get hold of it.
#[derive(Clone, Copy, Debug, PartialEq, Eq, Structural)]
pub enum PadRef {
    /// A pad that the element has for its whole life.
    Static(Pad),
    /// A pad that the element makes when it is asked for.
    Request(Pad),
    /// The pad whose appearance the plan answers.
    Added,
}

/// One operation on the media framework.
#[derive(Clone, Copy, Debug, PartialEq, Eq, Structural)]
pub enum Step {
    /// Make the element from its factory, under its instance name if
    /// `named`, else under a name of the framework's choosing.
    Make { element: ElementId, named: bool },
    /// Put the element into the pipeline.
    Add { element: ElementId },
    /// Link the output of `from` to the input of `to`.
    Link { from: ElementId, to: ElementId },
    /// Link one pad of `from` to one pad of `to`.
    LinkPads { from: ElementId, from_pad: PadRef, to: ElementId, to_pad: PadRef },
    /// Break every link from `from` to `to`.
    Unlink { from: ElementId, to: ElementId },
    /// Register the handler of this signal with the session element.
    Connect { signal: Signal },
    /// Set a property of the element.
    SetProperty { element: ElementId, property: Property, value: Value },
    /// Ask the session element for the storage of this session.
    FetchStorage { session: u32 },
}

/// The elements that exist once `step` has been performed, given those
/// that existed before.
pub open spec fn made_after(made: Set<ElementId>, step: Step) -> Set<ElementId> {
    match step {
        Step::Make { element, .. } => made.insert(element),
        _ => made,
    }
}

/// The elements that are in the pipeline once `step` has been performed,
/// given those that were before.
pub open spec fn added_after(added: Set<ElementId>, step: Step) -> Set<ElementId> {
    match step {
        Step::Add { element } => added.insert(element),
        _ => added,
    }
}

/// The elements that exist once `steps` have been performed, where those
/// of `given` existed beforehand.
pub open spec fn made(given: Set<ElementId>, steps: Seq<Step>) -> Set<ElementId>
    decreases steps.len(),
{
    if steps.len() == 0 {
        given
    } else {
        made_after(made(given, steps.drop_last()), steps.last())
    }
}

/// The elements that are in the pipeline once `steps` have been performed,
/// where those of `given` were in it beforehand.
pub open spec fn added(given: Set<ElementId>, steps: Seq<Step>) -> Set<ElementId>
    decreases steps.len(),
{
    if steps.len() == 0 {
        given
    } else {
        added_after(added(given, steps.drop_last()), steps.last())
    }
}

/// Whether `step` can be performed when the elements of `made` exist and
/// those of `added` are in the pipeline: an element is made once and put
/// into the pipeline once, what is linked is in the pipeline, and what is
/// configured exists.
pub open spec fn admissible(made: Set<ElementId>, added: Set<ElementId>, step: Step) -> bool {
    match step {
        Step::Make { element, .. } => !made.contains(element),
        Step::Add { element } => made.contains(element) && !added.contains(element),
        Step::Link { from, to } => from != to && added.contains(from) && added.contains(to),
        Step::LinkPads { from, to, .. } => from != to && added.contains(from) && added.contains(to),
        Step::Unlink { from, to } => from != to && added.contains(from) && added.contains(to),
        Step::Connect { .. } => made.contains(ElementId::Session),
        Step::SetProperty { element, .. } => made.contains(element),
        Step::FetchStorage { .. } => made.contains(ElementId::Session),
    }
}

/// Whether every step of `steps` can be performed when its turn comes.
pub open spec fn well_formed(given: Set<ElementId>, steps: Seq<Step>) -> bool
    decreases steps.len(),
{
    steps.len() == 0 || {
        &&& well_formed(given, steps.drop_last())
        &&& admissible(
            made(given, steps.drop_last()),
            added(given, steps.drop_last()),
            steps.last(),
        )
    }
}

/// The value that `steps` leave in a property of an element: that of the
/// last step that sets it.
pub open spec fn configured(steps: Seq<Step>, element: ElementId, property: Property) -> Option<
    Value,
>
    decreases steps.len(),
{
    if steps.len() == 0 {
        None
    } else {
        match steps.last() {
            Step::SetProperty { element: e, property: p, value } if e == element && p
                == property => Some(value),
            _ => configured(steps.drop_last(), element, property),
        }
    }
}

/// Whether `step` makes the element.
pub open spec fn makes(step: Step, element: ElementId) -> bool {
    step matches Step::Make { element: e, .. } && e == element
}

/// The elements that exist after some steps are those that were given and
/// those that one of the steps makes.
pub proof fn lemma_made_by_a_step(given: Set<ElementId>, steps: Seq<Step>, element: ElementId)
    ensures
        made(given, steps).contains(element) <==> given.contains(element) || exists|i: int|
            0 <= i < steps.len() && makes(#[trigger] steps[i], element),
    decreases steps.len(),
{
    if steps.len() > 0 {
        let earlier = steps.drop_last();
        lemma_made_by_a_step(given, earlier, element);
        if made(given, steps).contains(element) && !given.contains(element) {
            if makes(steps.last(), element) {
                assert(makes(steps[steps.len() - 1], element));
            } else {
                let i = choose|i: int| 0 <= i < earlier.len() && makes(#[trigger] earlier[i], element);
                assert(makes(steps[i], element));
            }
        }
        if exists|i: int| 0 <= i < steps.len() && makes(#[trigger] steps[i], element) {
            let i = choose|i: int| 0 <= i < steps.len() && makes(#[trigger] steps[i], element);
            if i < earlier.len() {
                assert(makes(earlier[i], element));
            }
        }
    }
}

/// The leading steps of a well-formed plan are a well-formed plan, and the
/// step that follows them can be performed after them.
pub proof fn lemma_well_formed_so_far(given: Set<ElementId>, steps: Seq<Step>, k: int)
    requires
        well_formed(given, steps),
        0 <= k <= steps.len(),
    ensures
        well_formed(given, steps.take(k)),
        k < steps.len() ==> admissible(
            made(given, steps.take(k)),
            added(given, steps.take(k)),
            steps[k],
        ),
    decreases steps.len() - k,
{
    if k == steps.len() {
        assert(steps.take(k) =~= steps);
    } else {
        lemma_well_formed_so_far(given, steps, k + 1);
        assert(steps.take(k + 1).drop_last() =~= steps.take(k));
        assert(steps.take(k + 1).last() == steps[k]);
    }
}

/// In a well-formed plan no element is made twice, nor one that was given.
/// So no two of the elements that it makes under their instance names
/// bear the same name.
pub proof fn lemma_made_once(given: Set<ElementId>, steps: Seq<Step>, i: int, j: int)
    requires
        well_formed(given, steps),
        0 <= i < j < steps.len(),
        steps[i] is Make,
        steps[j] is Make,
    ensures
        steps[i]->Make_element != steps[j]->Make_element,
        !given.contains(steps[j]->Make_element),
        steps[i]->Make_element.instance_text() is Some ==> steps[i]->Make_element.instance_text()
            != steps[j]->Make_element.instance_text(),
{
    lemma_well_formed_so_far(given, steps, j);
    let element = steps[j]->Make_element;
    lemma_made_by_a_step(given, steps.take(j), element);
    if steps[i]->Make_element == element {
        assert(makes(steps.take(j)[i], element));
    } else if steps[i]->Make_element.instance_text() is Some {
        lemma_instance_names_differ(steps[i]->Make_element, element);
    }
}

/// Whether `step` sets the property of the element.
pub open spec fn sets(step: Step, element: ElementId, property: Property) -> bool {
    step matches Step::SetProperty { element: e, property: p, .. } && e == element && p == property
}

/// Where a step sets a property and no later step sets it again, the steps
/// leave the property at the value of that step.
pub proof fn lemma_last_setting(
    steps: Seq<Step>,
    k: int,
    element: ElementId,
    property: Property,
    value: Value,
)
    requires
        0 <= k < steps.len(),
        steps[k] == (Step::SetProperty { element, property, value }),
        forall|j: int| k < j < steps.len() ==> !sets(#[trigger] steps[j], element, property),
    ensures
        configured(steps, element, property) == Some(value),
    decreases steps.len(),
{
    if k < steps.len() - 1 {
        assert(!sets(steps[steps.len() - 1], element, property));
        let earlier = steps.drop_last();
        assert(earlier[k] == steps[k]);
        assert forall|j: int| k < j < earlier.len() implies !sets(
            #[trigger] earlier[j],
            element,
            property,
        ) by {
            assert(earlier[j] == steps[j]);
        }
        lemma_last_setting(earlier, k, element, property, value);
    }
}

/// A list of steps, each of which can be performed when its turn comes.
#[derive(Clone, Debug)]
pub struct Plan {
    given: Vec<ElementId>,
    steps: Vec<Step>,
}

impl View for Plan {
    type V = Seq<Step>;

    closed spec fn view(&self) -> Seq<Step> {
        self.steps@
    }
}

impl Plan {
    /// The elements that the plan takes to be in the pipeline already.
    pub closed spec fn given(&self) -> Set<ElementId> {
        self.given@.to_set()
    }

    /// Whether every step can be performed when its turn comes. Every plan
    /// that this library hands out is so.
    pub open spec fn wf(&self) -> bool {
        well_formed(self.given(), self@)
    }

    /// The elements that exist once the plan has been performed.
    pub open spec fn made(&self) -> Set<ElementId> {
        made(self.given(), self@)
    }

    /// The elements that are in the pipeline once the plan has been
    /// performed.
    pub open spec fn added(&self) -> Set<ElementId> {
        added(self.given(), self@)
    }

    /// The empty plan for a pipeline that has nothing in it yet.
    pub fn new() -> (plan: Plan)
        ensures
            plan.wf(),
            plan@ == Seq::<Step>::empty(),
            plan.given() == Set::<ElementId>::empty(),
    {
        let plan = Plan { given: Vec::new(), steps: Vec::new() };
        assert(plan.given@.to_set() =~= Set::<ElementId>::empty());
        plan
    }

    /// The empty plan for a pipeline that holds the elements of `given`.
    pub fn within(given: Vec<ElementId>) -> (plan: Plan)
        ensures
            plan.wf(),
            plan@ == Seq::<Step>::empty(),
            plan.given() == given@.to_set(),
    {
        Plan { given, steps: Vec::new() }
    }

    /// Whether `element` exists, and whether it is in the pipeline, once
    /// the plan has been performed.
    fn state_of(&self, element: ElementId) -> (state: (bool, bool))
        ensures
            state.0 == self.made().contains(element),
            state.1 == self.added().contains(element),
    {
        let mut is_given = false;
        let mut i: usize = 0;
        while i < self.given.len()
            invariant
                i <= self.given@.len(),
                is_given == self.given@.take(i as int).contains(element),
            decreases self.given@.len() - i,
        {
            proof {
                let before = self.given@.take(i as int);
                let after = self.given@.take(i as int + 1);
                assert(after =~= before.push(self.given@[i as int]));
                if before.contains(element) {
                    let j = choose|j: int| 0 <= j < before.len() && before[j] == element;
                    assert(after[j] == element);
                }
                if self.given@[i as int] == element {
                    assert(after[i as int] == element);
                }
            }
            if self.given[i] == element {
                is_given = true;
            }
            i = i + 1;
        }
        proof {
            assert(self.given@.take(self.given@.len() as int) =~= self.given@);
        }
        let mut is_made = is_given;
        let mut is_added = is_given;
        let mut k: usize = 0;
        while k < self.steps.len()
            invariant
                k <= self.steps@.len(),
                is_made == made(self.given(), self.steps@.take(k as int)).contains(element),
                is_added == added(self.given(), self.steps@.take(k as int)).contains(element),
            decreases self.steps@.len() - k,
        {
            proof {
                assert(self.steps@.take(k as int + 1).drop_last() =~= self.steps@.take(k as int));
            }
            match self.steps[k] {
                Step::Make { element: e, .. } => {
                    if e == element {
                        is_made = true;
                    }
                },
                Step::Add { element: e } => {
                    if e == element {
                        is_added = true;
                    }
                },
                _ => {},
            }
            k = k + 1;
        }
        proof {
            assert(self.steps@.take(self.steps@.len() as int) =~= self.steps@);
        }
        (is_made, is_added)
    }

    /// Whether `element` exists once the plan has been performed.
    pub fn is_made(&self, element: ElementId) -> (b: bool)
        ensures
            b == self.made().contains(element),
    {
        self.state_of(element).0
    }

    /// Whether `element` is in the pipeline once the plan has been
    /// performed.
    pub fn is_added(&self, element: ElementId) -> (b: bool)
        ensures
            b == self.added().contains(element),
    {
        self.state_of(element).1
    }

    /// Whether `step` can be performed after the plan.
    pub fn admits(&self, step: Step) -> (b: bool)
        ensures
            b == admissible(self.made(), self.added(), step),
    {
        match step {
            Step::Make { element, .. } => !self.is_made(element),
            Step::Add { element } => {
                let state = self.state_of(element);
                state.0 && !state.1
            },
            Step::Link { from, to } => from != to && self.is_added(from) && self.is_added(to),
            Step::LinkPads { from, to, .. } => from != to && self.is_added(from) && self.is_added(
                to,
            ),
            Step::Unlink { from, to } => from != to && self.is_added(from) && self.is_added(to),
            Step::Connect { .. } => self.is_made(ElementId::Session),
            Step::SetProperty { element, .. } => self.is_made(element),
            Step::FetchStorage { .. } => self.is_made(ElementId::Session),
        }
    }

    /// Appends `step` if it can be performed after the plan, and says
    /// whether it did; a step that cannot be performed leaves the plan as
    /// it was.
    pub fn push(&mut self, step: Step) -> (ok: bool)
        requires
            old(self).wf(),
        ensures
            final(self).wf(),
            ok == admissible(old(self).made(), old(self).added(), step),
            ok ==> final(self)@ == old(self)@.push(step),
            ok ==> final(self).made() == made_after(old(self).made(), step),
            ok ==> final(self).added() == added_after(old(self).added(), step),
            !ok ==> final(self)@ == old(self)@,
            !ok ==> final(self).made() == old(self).made(),
            !ok ==> final(self).added() == old(self).added(),
            final(self).given() == old(self).given(),
    {
        if self.admits(step) {
            proof {
                assert(self.steps@.push(step).drop_last() =~= self.steps@);
            }
            self.steps.push(step);
            true
        } else {
            false
        }
    }

    /// The number of steps.
    pub fn len(&self) -> (n: usize)
        ensures
            n == self@.len(),
    {
        self.steps.len()
    }

    /// The step at position `index`, if the plan is that long.
    pub fn get(&self, index: usize) -> (step: Option<Step>)
        ensures
            step == if index < self@.len() {
                Some(self@[index as int])
            } else {
                None
            },
    {
        if index < self.steps.len() {
            Some(self.steps[index])
        } else {
            None
        }
    }

    /// The steps in order.
    pub fn steps(&self) -> (steps: Vec<Step>)
        ensures
            steps@ == self@,
    {
        let mut steps: Vec<Step> = Vec::new();
        let mut i: usize = 0;
        while i < self.steps.len()
            invariant
                i <= self.steps@.len(),
                steps@ == self.steps@.take(i as int),
            decreases self.steps@.len() - i,
        {
            steps.push(self.steps[i]);
            proof {
                assert(steps@ =~= self.steps@.take(i as int + 1));
            }
            i = i + 1;
        }
        proof {
            assert(self.steps@.take(self.steps@.len() as int) =~= self.steps@);
        }
        steps
    }

    /// The value that the plan leaves in a property of an element.
    pub fn setting(&self, element: ElementId, property: Property) -> (value: Option<Value>)
        ensures
            value == configured(self@, element, property),
    {
        let mut value: Option<Value> = None;
        let mut i: usize = 0;
        while i < self.steps.len()
            invariant
                i <= self.steps@.len(),
                value == configured(self.steps@.take(i as int), element, property),
            decreases self.steps@.len() - i,
        {
            proof {
                assert(self.steps@.take(i as int + 1).drop_last() =~= self.steps@.take(i as int));
            }
            match self.steps[i] {
                Step::SetProperty { element: e, property: p, value: v } => {
                    if e == element && p == property {
                        value = Some(v);
                    }
                },
                _ => {},
            }
            i = i + 1;
        }
        proof {
            assert(self.steps@.take(self.steps@.len() as int) =~= self.steps@);
        }
        value
    }
}

} // verus!
