//! The FEC negotiator: what is done when the session element asks for a
//! FEC encoder, for the FEC decoder of one session, or announces a new
//! packet storage.

use crate::args::{Config, FecParams, Role};
use crate::caps::FEC_PAYLOAD_TYPE;
use crate::error::ErrorView;
use crate::names::{ElementId, Property};
use crate::plan::{configured, lemma_last_setting, Plan, Step, Value};
use crate::request::{reply_to, report_for, ReplyView, Request};
use crate::run::{lemma_complete_iff_all_done, lemma_run_in_order, OutcomeView, RunView};
use vstd::prelude::*;

verus! {

/// The steps that make a FEC encoder: the element, its protection payload
/// type, whether it protects several packets at once, and the two
/// redundancies as they were given.
pub open spec fn encoder_steps(fec: FecParams, multipacket: bool, named: bool) -> Seq<Step> {
    seq![
        Step::Make { element: ElementId::FecEncoder, named },
        Step::SetProperty {
            element: ElementId::FecEncoder,
            property: Property::Pt,
            value: Value::UInt(FEC_PAYLOAD_TYPE),
        },
        Step::SetProperty {
            element: ElementId::FecEncoder,
            property: Property::Multipacket,
            value: Value::Flag(multipacket),
        },
        Step::SetProperty {
            element: ElementId::FecEncoder,
            property: Property::Percentage,
            value: Value::UInt(fec.percentage),
        },
        Step::SetProperty {
            element: ElementId::FecEncoder,
            property: Property::PercentageImportant,
            value: Value::UInt(fec.percentage_important),
        },
    ]
}

/// The steps that make a FEC decoder for a session: the element, the
/// session's storage fetched from the session element and bound to the
/// decoder, and the protection payload type.
pub open spec fn decoder_steps(session: u32, named: bool) -> Seq<Step> {
    seq![
        Step::Make { element: ElementId::FecDecoder, named },
        Step::FetchStorage { session },
        Step::SetProperty {
            element: ElementId::FecDecoder,
            property: Property::Storage,
            value: Value::InternalStorage,
        },
        Step::SetProperty {
            element: ElementId::FecDecoder,
            property: Property::Pt,
            value: Value::UInt(FEC_PAYLOAD_TYPE),
        },
    ]
}

/// The step that gives a new storage its window.
pub open spec fn storage_steps(window_ns: u64) -> Seq<Step> {
    seq![
        Step::SetProperty {
            element: ElementId::Storage,
            property: Property::SizeTime,
            value: Value::ULong(window_ns),
        },
    ]
}

/// Whether the FEC encoder of a role protects several packets at once: it
/// does for the continuous synthetic tone, and not for live audio.
pub open spec fn multipacket_for(role: Role) -> bool {
    role is TestTransmitter
}

/// Whether the FEC element of a role is made under its instance name, so
/// that the statistics poller finds it.
pub open spec fn fec_named_for(role: Role) -> bool {
    role is Receiver || role is Transmitter || role is BaselineTransmitter
}

/// The plan that answers a request for a FEC encoder. Whatever the
/// redundancies, the protection payload type is 100 and the redundancies
/// reach the encoder as they were given.
pub fn encoder_plan(fec: FecParams, multipacket: bool, named: bool) -> (plan: Plan)
    ensures
        plan.wf(),
        plan.given() == Set::<ElementId>::empty(),
        plan@ == encoder_steps(fec, multipacket, named),
        configured(plan@, ElementId::FecEncoder, Property::Pt) == Some(
            Value::UInt(FEC_PAYLOAD_TYPE),
        ),
        configured(plan@, ElementId::FecEncoder, Property::Multipacket) == Some(
            Value::Flag(multipacket),
        ),
        configured(plan@, ElementId::FecEncoder, Property::Percentage) == Some(
            Value::UInt(fec.percentage),
        ),
        configured(plan@, ElementId::FecEncoder, Property::PercentageImportant) == Some(
            Value::UInt(fec.percentage_important),
        ),
{
    let mut plan = Plan::new();
    plan.push(Step::Make { element: ElementId::FecEncoder, named });
    plan.push(
        Step::SetProperty {
            element: ElementId::FecEncoder,
            property: Property::Pt,
            value: Value::UInt(FEC_PAYLOAD_TYPE),
        },
    );
    plan.push(
        Step::SetProperty {
            element: ElementId::FecEncoder,
            property: Property::Multipacket,
            value: Value::Flag(multipacket),
        },
    );
    plan.push(
        Step::SetProperty {
            element: ElementId::FecEncoder,
            property: Property::Percentage,
            value: Value::UInt(fec.percentage),
        },
    );
    plan.push(
        Step::SetProperty {
            element: ElementId::FecEncoder,
            property: Property::PercentageImportant,
            value: Value::UInt(fec.percentage_important),
        },
    );
    proof {
        assert(plan@ == encoder_steps(fec, multipacket, named));
        lemma_encoder_settings(fec, multipacket, named);
    }
    plan
}

/// What the encoder's steps leave in its properties.
pub proof fn lemma_encoder_settings(fec: FecParams, multipacket: bool, named: bool)
    ensures
        configured(
            encoder_steps(fec, multipacket, named),
            ElementId::FecEncoder,
            Property::Pt,
        ) == Some(Value::UInt(FEC_PAYLOAD_TYPE)),
        configured(
            encoder_steps(fec, multipacket, named),
            ElementId::FecEncoder,
            Property::Multipacket,
        ) == Some(Value::Flag(multipacket)),
        configured(
            encoder_steps(fec, multipacket, named),
            ElementId::FecEncoder,
            Property::Percentage,
        ) == Some(Value::UInt(fec.percentage)),
        configured(
            encoder_steps(fec, multipacket, named),
            ElementId::FecEncoder,
            Property::PercentageImportant,
        ) == Some(Value::UInt(fec.percentage_important)),
{
    let steps = encoder_steps(fec, multipacket, named);
    let encoder = ElementId::FecEncoder;
    lemma_last_setting(steps, 1, encoder, Property::Pt, Value::UInt(FEC_PAYLOAD_TYPE));
    lemma_last_setting(steps, 2, encoder, Property::Multipacket, Value::Flag(multipacket));
    lemma_last_setting(steps, 3, encoder, Property::Percentage, Value::UInt(fec.percentage));
    lemma_last_setting(
        steps,
        4,
        encoder,
        Property::PercentageImportant,
        Value::UInt(fec.percentage_important),
    );
}

/// The plan that answers a transmitter's request for a FEC encoder; a
/// receiver is not asked for one.
pub fn encoder_plan_for(config: &Config) -> (plan: Option<Plan>)
    ensures
        match config@.fec() {
            Some(fec) => plan matches Some(p) && p.wf() && p.given() == Set::<ElementId>::empty()
                && p@ == encoder_steps(
                fec,
                multipacket_for(config@.role()),
                fec_named_for(config@.role()),
            ),
            None => plan is None,
        },
{
    match config {
        Config::BaselineTransmitter { fec, .. } => Some(encoder_plan(*fec, false, true)),
        Config::Transmitter { fec, .. } => Some(encoder_plan(*fec, false, true)),
        Config::TestTransmitter { fec, .. } => Some(encoder_plan(*fec, true, false)),
        _ => None,
    }
}

/// The plan that answers a request for the FEC decoder of a session, in a
/// pipeline that holds the session element.
pub fn decoder_plan(session: u32, named: bool) -> (plan: Plan)
    ensures
        plan.wf(),
        plan.given() == set![ElementId::Session],
        plan@ == decoder_steps(session, named),
{
    let mut given: Vec<ElementId> = Vec::new();
    given.push(ElementId::Session);
    proof {
        assert(given@ =~= seq![ElementId::Session]);
        assert(given@[0] == ElementId::Session);
        assert(given@.to_set() =~= set![ElementId::Session]);
    }
    let mut plan = Plan::within(given);
    plan.push(Step::Make { element: ElementId::FecDecoder, named });
    plan.push(Step::FetchStorage { session });
    plan.push(
        Step::SetProperty {
            element: ElementId::FecDecoder,
            property: Property::Storage,
            value: Value::InternalStorage,
        },
    );
    plan.push(
        Step::SetProperty {
            element: ElementId::FecDecoder,
            property: Property::Pt,
            value: Value::UInt(FEC_PAYLOAD_TYPE),
        },
    );
    plan
}

/// The plan that gives a storage that the session element has just made
/// its window, in nanoseconds.
pub fn storage_plan(window_ns: u64) -> (plan: Plan)
    ensures
        plan.wf(),
        plan.given() == set![ElementId::Storage],
        plan@ == storage_steps(window_ns),
{
    let mut given: Vec<ElementId> = Vec::new();
    given.push(ElementId::Storage);
    proof {
        assert(given@ =~= seq![ElementId::Storage]);
        assert(given@[0] == ElementId::Storage);
        assert(given@.to_set() =~= set![ElementId::Storage]);
    }
    let mut plan = Plan::within(given);
    plan.push(
        Step::SetProperty {
            element: ElementId::Storage,
            property: Property::SizeTime,
            value: Value::ULong(window_ns),
        },
    );
    plan
}

/// The plan that answers a receiver's request for the FEC decoder of a
/// session; a transmitter is not asked for one.
pub fn decoder_plan_for(role: Role, session: u32) -> (plan: Option<Plan>)
    ensures
        role.sends() ==> plan is None,
        !role.sends() ==> (plan matches Some(p) && p.wf() && p.given() == set![ElementId::Session]
            && p@ == decoder_steps(session, fec_named_for(role))),
{
    match role {
        Role::Receiver => Some(decoder_plan(session, true)),
        Role::BasicReceiver => Some(decoder_plan(session, false)),
        _ => None,
    }
}

/// The plan that gives a new storage the window of a receiver's
/// configuration; a transmitter has no storage.
pub fn storage_plan_for(config: &Config) -> (plan: Option<Plan>)
    ensures
        match config@.storage_window_ns() {
            Some(window_ns) => plan matches Some(p) && p.wf() && p.given()
                == set![ElementId::Storage] && p@ == storage_steps(window_ns),
            None => plan is None,
        },
{
    match config.storage_window_ns() {
        Some(window_ns) => Some(storage_plan(window_ns)),
        None => None,
    }
}

/// No decoder is handed over unless its storage has been fetched and
/// bound: whatever the outcomes of the steps, a decoder is handed over
/// only if every step was performed, and when the session element has no
/// storage for the session the reply holds no element but the posted
/// failure `NoStorage`.
pub proof fn lemma_decoder_needs_storage(session: u32, named: bool, outcomes: Seq<OutcomeView>)
    ensures
        ({
            let run = RunView::fresh(decoder_steps(session, named)).after(outcomes);
            let reply = reply_to(Request::FecDecoder, run);
            &&& reply.element is Some ==> outcomes.len() >= 4 && outcomes[0] is Done
                && outcomes[1] is Done && outcomes[2] is Done && outcomes[3] is Done
            &&& outcomes.len() >= 2 && outcomes[0] is Done && outcomes[1] is Missing ==> {
                &&& reply.element is None
                &&& reply.report == Some(
                    report_for(Request::FecDecoder, ErrorView::NoStorage(session)),
                )
            }
        }),
{
    let steps = decoder_steps(session, named);
    lemma_run_in_order(steps, outcomes);
    let run = RunView::fresh(steps).after(outcomes);
    if outcomes.len() >= 2 && outcomes[0] is Done && outcomes[1] is Missing {
        if run.failure is None {
            if run.done < 4 {
                assert(run.done == outcomes.len());
            }
            assert(outcomes[1] is Done);
        } else {
            if run.done < 1 {
                assert(false);
            }
            if run.done > 1 {
                assert(outcomes[1] is Done);
            }
            assert(run.done == 1);
        }
    }
}

/// When every step of the decoder's plan has been performed, the decoder
/// is handed over, with the protection payload type 100 and the storage of
/// its session, fetched under the session's number, bound to it.
pub proof fn lemma_decoder_handed_over(session: u32, named: bool, outcomes: Seq<OutcomeView>)
    requires
        outcomes.len() >= 4,
        outcomes[0] is Done,
        outcomes[1] is Done,
        outcomes[2] is Done,
        outcomes[3] is Done,
    ensures
        ({
            let steps = decoder_steps(session, named);
            let run = RunView::fresh(steps).after(outcomes);
            &&& reply_to(Request::FecDecoder, run) == (ReplyView {
                element: Some(ElementId::FecDecoder),
                report: None,
            })
            &&& configured(steps, ElementId::FecDecoder, Property::Pt) == Some(
                Value::UInt(FEC_PAYLOAD_TYPE),
            )
            &&& configured(steps, ElementId::FecDecoder, Property::Storage) == Some(
                Value::InternalStorage,
            )
            &&& steps[1] == Step::FetchStorage { session }
        }),
{
    let steps = decoder_steps(session, named);
    lemma_complete_iff_all_done(steps, outcomes);
    lemma_last_setting(
        steps,
        3,
        ElementId::FecDecoder,
        Property::Pt,
        Value::UInt(FEC_PAYLOAD_TYPE),
    );
    lemma_last_setting(steps, 2, ElementId::FecDecoder, Property::Storage, Value::InternalStorage);
}

} // verus!
