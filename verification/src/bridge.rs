//! The per-tick event loop.
//!
//! The GUI host runtime invokes the bridge once per tick; the bridge owns no
//! thread and never blocks.  A tick runs in two phases, each draining its
//! queue fully so that no backlog can grow without bound:
//!
//! 1. [`Bridge::drain_inbound`] empties the GUI-to-plugin queue.  Each value
//!    is decoded and interpreted: `Init` queues the initial state hand-off,
//!    a `ParamChange` becomes one clamped transaction triad, and a custom
//!    `Message` payload is handed back for the application's handler.  A
//!    malformed value or an unknown identifier produces a warning and is
//!    skipped; no fault aborts the drain.
//! 2. [`Bridge::drain_outbound`] empties the plugin-to-GUI queue, encoding
//!    each message in first-in first-out order for the transport.
//!
//! Between the phases the embedding performs the returned transaction
//! operations and invokes its custom message handler on each returned
//! payload; the handler's replies go through [`Bridge::send_message`], the
//! send capability bound to the plugin-to-GUI queue.  Dropping the bridge
//! drops both queues and everything still queued, so no send can outlive the
//! bridge's teardown.

use vstd::prelude::*;
use crate::codec::decode_gui;
use crate::codec::encode_plugin;
use crate::codec::spec_decode_gui;
use crate::codec::spec_encode_plugin;
use crate::message::GuiMessage;
use crate::message::GuiMessageModel;
use crate::message::ParamChange;
use crate::message::ParamChangeModel;
use crate::message::PluginMessage;
use crate::message::PluginMessageModel;
use crate::queue::in_queue_bound;
use crate::queue::in_queue_model;
use crate::queue::out_queue_model;
use crate::queue::InQueue;
use crate::queue::OutQueue;
use crate::registry::contains_id;
use crate::registry::triad;
use crate::registry::ParamInfoModel;
use crate::registry::ParamOp;
use crate::registry::ParamOpModel;
use crate::registry::Registry;
use crate::wire::Number;
use crate::wire::ValueModel;
use crate::wire::WireValue;

verus! {

/// A recoverable fault of one tick: reported to the embedding for logging,
/// never thrown, and never aborting the drain that met it.
#[derive(Debug, PartialEq, Eq)]
pub enum Warning {
    /// An inbound value matched no known message shape and was skipped.
    MalformedInbound { value: WireValue },
    /// A parameter change named an identifier no registry entry carries and
    /// was skipped.
    UnknownParameter { id: String },
}

/// The mathematical shape of a [`Warning`].
#[verifier::ext_equal]
pub enum WarningModel {
    MalformedInbound { value: ValueModel },
    UnknownParameter { id: Seq<char> },
}

impl View for Warning {
    type V = WarningModel;

    open spec fn view(&self) -> WarningModel {
        match self {
            Warning::MalformedInbound { value } => (WarningModel::MalformedInbound {
                value: value@,
            }),
            Warning::UnknownParameter { id } => WarningModel::UnknownParameter { id: id@ },
        }
    }
}

impl DeepView for Warning {
    type V = WarningModel;

    open spec fn deep_view(&self) -> WarningModel {
        self.view()
    }
}

/// What one inbound drain hands the embedding: the transaction operations
/// to perform against the host, the custom payloads for the message
/// handler, and the warnings to log, each in occurrence order.
pub struct InboundReport {
    pub ops: Vec<ParamOp>,
    pub payloads: Vec<WireValue>,
    pub warnings: Vec<Warning>,
}

/// The combined effect of processing inbound values: what is applied, what
/// is queued outbound, what is handed to the handler, and what is logged.
#[verifier::ext_equal]
pub struct TickEffect {
    pub ops: Seq<ParamOpModel>,
    pub outbound: Seq<PluginMessageModel>,
    pub payloads: Seq<ValueModel>,
    pub warnings: Seq<WarningModel>,
}

impl TickEffect {
    /// The effect of processing nothing.
    pub open spec fn empty() -> TickEffect {
        TickEffect {
            ops: Seq::<ParamOpModel>::empty(),
            outbound: Seq::<PluginMessageModel>::empty(),
            payloads: Seq::<ValueModel>::empty(),
            warnings: Seq::<WarningModel>::empty(),
        }
    }

    /// This effect followed by another.
    pub open spec fn followed_by(self, other: TickEffect) -> TickEffect {
        TickEffect {
            ops: self.ops + other.ops,
            outbound: self.outbound + other.outbound,
            payloads: self.payloads + other.payloads,
            warnings: self.warnings + other.warnings,
        }
    }
}

/// The initial state hand-off: one outbound `ParamChange` per registry
/// entry, in registry order, carrying each parameter's current normalized
/// value.
pub open spec fn init_messages(reg: Seq<ParamInfoModel>) -> Seq<PluginMessageModel> {
    Seq::new(
        reg.len(),
        |i: int|
            PluginMessageModel::ParamChange(
                ParamChangeModel { id: reg[i].id, value: reg[i].value },
            ),
    )
}

/// The effect of one inbound value on a bridge with the given registry.
pub open spec fn step_effect(reg: Seq<ParamInfoModel>, v: ValueModel) -> TickEffect {
    match spec_decode_gui(v) {
        None => TickEffect {
            warnings: seq![WarningModel::MalformedInbound { value: v }],
            ..TickEffect::empty()
        },
        Some(GuiMessageModel::Init) => TickEffect {
            outbound: init_messages(reg),
            ..TickEffect::empty()
        },
        Some(GuiMessageModel::ParamChange(pc)) => if contains_id(reg, pc.id) {
            TickEffect { ops: triad(pc.id, pc.value.spec_clamp_unit()), ..TickEffect::empty() }
        } else {
            TickEffect {
                warnings: seq![WarningModel::UnknownParameter { id: pc.id }],
                ..TickEffect::empty()
            }
        },
        Some(GuiMessageModel::Message(p)) => TickEffect {
            payloads: seq![p],
            ..TickEffect::empty()
        },
    }
}

/// The encodings of outbound messages, in their queued order.
pub open spec fn encode_all(ms: Seq<PluginMessageModel>) -> Seq<ValueModel> {
    ms.map_values(|m: PluginMessageModel| spec_encode_plugin(m))
}

/// The effect of processing inbound values front to back.
pub open spec fn drain_effect(reg: Seq<ParamInfoModel>, vs: Seq<ValueModel>) -> TickEffect
    decreases vs.len(),
{
    if vs.len() == 0 {
        TickEffect::empty()
    } else {
        step_effect(reg, vs[0]).followed_by(drain_effect(reg, vs.drop_first()))
    }
}

/// Appending one more inbound value appends its effect.
proof fn lemma_drain_effect_snoc(reg: Seq<ParamInfoModel>, vs: Seq<ValueModel>, v: ValueModel)
    ensures
        drain_effect(reg, vs.push(v)) == drain_effect(reg, vs).followed_by(step_effect(reg, v)),
    decreases vs.len(),
{
    if vs.len() == 0 {
        assert(vs.push(v).drop_first() =~= Seq::<ValueModel>::empty());
        assert(drain_effect(reg, vs.push(v)) =~~= drain_effect(reg, vs).followed_by(
        step_effect(reg, v)));
    } else {
        assert(vs.push(v).drop_first() =~= vs.drop_first().push(v));
        lemma_drain_effect_snoc(reg, vs.drop_first(), v);
        assert(vs.push(v)[0] == vs[0]);
        assert(drain_effect(reg, vs.push(v)) == step_effect(reg, vs[0]).followed_by(
        drain_effect(reg, vs.push(v).drop_first())));
        assert(drain_effect(reg, vs.push(v).drop_first()) == drain_effect(
            reg,
            vs.drop_first(),
        ).followed_by(step_effect(reg, v)));
        assert(drain_effect(reg, vs) == step_effect(reg, vs[0]).followed_by(
        drain_effect(reg, vs.drop_first())));
        assert(drain_effect(reg, vs.push(v)) =~~= drain_effect(reg, vs).followed_by(
        step_effect(reg, v)));
    }
}

/// Law: the outbound drain delivers exactly the queued messages, in their
/// enqueue order: the delivered batch has one encoding per queued message,
/// position for position.
pub proof fn lemma_outbound_order_kept(ms: Seq<PluginMessageModel>)
    ensures
        encode_all(ms).len() == ms.len(),
        forall|i: int| 0 <= i < ms.len() ==> encode_all(ms)[i] == spec_encode_plugin(ms[i]),
{
}

/// Law: one well-formed `ParamChange` for a registered identifier with an
/// in-range value is applied as exactly one begin–set–end triad on that
/// parameter and nothing else: no other operation, no outbound message, no
/// payload, and no warning.
pub proof fn lemma_param_change_applies_triad(
    reg: Seq<ParamInfoModel>,
    v: ValueModel,
    pc: ParamChangeModel,
)
    requires
        spec_decode_gui(v) == Some(GuiMessageModel::ParamChange(pc)),
        contains_id(reg, pc.id),
        pc.value.in_unit_range(),
    ensures
        step_effect(reg, v).ops == triad(pc.id, pc.value),
        step_effect(reg, v).outbound == Seq::<PluginMessageModel>::empty(),
        step_effect(reg, v).payloads == Seq::<ValueModel>::empty(),
        step_effect(reg, v).warnings == Seq::<WarningModel>::empty(),
{
    assert(pc.value.spec_clamp_unit() == pc.value);
}

/// Law: a `ParamChange` naming an identifier no registry entry carries
/// causes no transaction operation at all and exactly one warning.
pub proof fn lemma_unknown_id_skipped(
    reg: Seq<ParamInfoModel>,
    v: ValueModel,
    pc: ParamChangeModel,
)
    requires
        spec_decode_gui(v) == Some(GuiMessageModel::ParamChange(pc)),
        !contains_id(reg, pc.id),
    ensures
        step_effect(reg, v).ops == Seq::<ParamOpModel>::empty(),
        step_effect(reg, v).warnings == seq![(WarningModel::UnknownParameter { id: pc.id })],
        step_effect(reg, v).outbound == Seq::<PluginMessageModel>::empty(),
        step_effect(reg, v).payloads == Seq::<ValueModel>::empty(),
{
}

/// Law: processing `Init` with a registry of `N` parameters queues exactly
/// `N` outbound `ParamChange` messages, one per parameter in registry
/// order, each carrying that parameter's current normalized value at the
/// time of processing.
pub proof fn lemma_init_hands_off_state(reg: Seq<ParamInfoModel>, v: ValueModel)
    requires
        spec_decode_gui(v) == Some(GuiMessageModel::Init),
    ensures
        step_effect(reg, v).outbound.len() == reg.len(),
        forall|i: int|
            0 <= i < reg.len() ==> step_effect(reg, v).outbound[i]
                == PluginMessageModel::ParamChange(
                (ParamChangeModel { id: reg[i].id, value: reg[i].value }),
            ),
        step_effect(reg, v).ops == Seq::<ParamOpModel>::empty(),
        step_effect(reg, v).payloads == Seq::<ValueModel>::empty(),
        step_effect(reg, v).warnings == Seq::<WarningModel>::empty(),
{
}

/// Law: a malformed inbound value followed by a well-formed `ParamChange`
/// in the same drain still applies the change: one warning for the
/// malformed value, then the triad, because a fault skips one message and
/// never aborts the drain.
pub proof fn lemma_skip_and_continue(
    reg: Seq<ParamInfoModel>,
    bad: ValueModel,
    good: ValueModel,
    pc: ParamChangeModel,
)
    requires
        spec_decode_gui(bad) is None,
        spec_decode_gui(good) == Some(GuiMessageModel::ParamChange(pc)),
        contains_id(reg, pc.id),
        pc.value.in_unit_range(),
    ensures
        drain_effect(reg, seq![bad, good]).ops == triad(pc.id, pc.value),
        drain_effect(reg, seq![bad, good]).warnings == seq![
            (WarningModel::MalformedInbound { value: bad }),
        ],
        drain_effect(reg, seq![bad, good]).outbound == Seq::<PluginMessageModel>::empty(),
        drain_effect(reg, seq![bad, good]).payloads == Seq::<ValueModel>::empty(),
{
    let vs = seq![bad, good];
    assert(vs.drop_first() =~= seq![good]);
    assert(seq![good].drop_first() =~= Seq::<ValueModel>::empty());
    lemma_param_change_applies_triad(reg, good, pc);
    assert(drain_effect(reg, Seq::<ValueModel>::empty()) == TickEffect::empty());
    assert(drain_effect(reg, vs) == step_effect(reg, bad).followed_by(
    drain_effect(reg, seq![good])));
    assert(drain_effect(reg, seq![good]) == step_effect(reg, good).followed_by(
    TickEffect::empty()));
    assert(drain_effect(reg, vs).ops =~= triad(pc.id, pc.value));
    assert(drain_effect(reg, vs).warnings =~= seq![
        (WarningModel::MalformedInbound { value: bad }),
    ]);
    assert(drain_effect(reg, vs).outbound =~= Seq::<PluginMessageModel>::empty());
    assert(drain_effect(reg, vs).payloads =~= Seq::<ValueModel>::empty());
}

/// The message bridge: the two queues and the tick discipline over them.
pub struct Bridge {
    inbound: InQueue,
    outbound: OutQueue,
}

impl Bridge {
    /// The inbound values queued and not yet drained, front first.
    pub closed spec fn inbound_model(self) -> Seq<ValueModel> {
        in_queue_model(self.inbound)
    }

    /// How many inbound values the GUI-to-plugin queue can hold.
    pub closed spec fn inbound_bound(self) -> nat {
        in_queue_bound(self.inbound)
    }

    /// The outbound messages queued and not yet delivered, front first.
    pub closed spec fn outbound_model(self) -> Seq<PluginMessageModel> {
        out_queue_model(self.outbound)
    }

    /// Builds a bridge with two fresh, empty queues.  The GUI-to-plugin
    /// queue holds at most `inbound_capacity` undrained values and rejects
    /// new ones when full; the plugin-to-GUI queue is unbounded, since the
    /// bridge itself produces outbound messages at a bounded rate.
    pub fn new(inbound_capacity: usize) -> (b: Bridge)
        requires
            inbound_capacity >= 1,
        ensures
            b.inbound_model() == Seq::<ValueModel>::empty(),
            b.outbound_model() == Seq::<PluginMessageModel>::empty(),
            b.inbound_bound() == inbound_capacity as nat,
    {
        Bridge { inbound: InQueue::new(inbound_capacity), outbound: OutQueue::new() }
    }

    /// The transport side hands one decoded structured value to the bridge.
    /// A full queue rejects the value rather than block: the consumer of
    /// this queue runs next to the audio thread and must never wait on a
    /// stalled producer.
    pub fn push_inbound(&mut self, v: WireValue) -> (r: Result<(), WireValue>)
        ensures
            final(self).inbound_bound() == old(self).inbound_bound(),
            final(self).outbound_model() == old(self).outbound_model(),
            match r {
                Result::Ok(_) => old(self).inbound_model().len() < old(self).inbound_bound()
                    && final(self).inbound_model() == old(self).inbound_model().push(v@),
                Result::Err(rejected) => old(self).inbound_model().len() >= old(
                    self,
                ).inbound_bound() && final(self).inbound_model() == old(self).inbound_model()
                    && rejected == v,
            },
    {
        self.inbound.try_push(v)
    }

    /// The host notified the editor of a parameter change: one outbound
    /// `ParamChange` is queued for the GUI.
    pub fn param_value_changed(&mut self, id: String, value: Number)
        ensures
            final(self).inbound_model() == old(self).inbound_model(),
            final(self).inbound_bound() == old(self).inbound_bound(),
            final(self).outbound_model() == old(self).outbound_model().push(
                PluginMessageModel::ParamChange(ParamChangeModel { id: id@, value: value }),
            ),
    {
        self.outbound.push(PluginMessage::ParamChange(ParamChange { id: id, value: value }));
    }

    /// The inbound phase of one tick: drains the GUI-to-plugin queue fully,
    /// interpreting every queued value in arrival order.  A malformed value
    /// or an unknown parameter identifier becomes a warning and is skipped;
    /// the drain never aborts early.  `Init` queues the initial state
    /// hand-off on the outbound queue; a `ParamChange` for a registered
    /// parameter becomes its clamped transaction triad in the report;
    /// custom payloads come back in the report for the message handler.
    pub fn drain_inbound(&mut self, registry: &Registry) -> (r: InboundReport)
        ensures
            final(self).inbound_model() == Seq::<ValueModel>::empty(),
            final(self).inbound_bound() == old(self).inbound_bound(),
            final(self).outbound_model() == old(self).outbound_model() + drain_effect(
                registry@,
                old(self).inbound_model(),
            ).outbound,
            r.ops.deep_view() == drain_effect(registry@, old(self).inbound_model()).ops,
            r.payloads.deep_view() == drain_effect(registry@, old(self).inbound_model()).payloads,
            r.warnings.deep_view() == drain_effect(registry@, old(self).inbound_model()).warnings,
    {
        let ghost reg = registry@;
        let ghost all = self.inbound_model();
        let ghost out0 = self.outbound_model();
        let ghost bound0 = self.inbound_bound();
        let mut ops: Vec<ParamOp> = Vec::new();
        let mut payloads: Vec<WireValue> = Vec::new();
        let mut warnings: Vec<Warning> = Vec::new();
        let ghost mut done: Seq<ValueModel> = Seq::<ValueModel>::empty();
        proof {
            assert(all =~= done + self.inbound_model());
            assert(drain_effect(reg, done) =~~= TickEffect::empty());
        }
        while !self.inbound.is_empty()
            invariant
                registry@ == reg,
                self.inbound_bound() == bound0,
                all == done + self.inbound_model(),
                self.outbound_model() == out0 + drain_effect(reg, done).outbound,
                ops.deep_view() == drain_effect(reg, done).ops,
                payloads.deep_view() == drain_effect(reg, done).payloads,
                warnings.deep_view() == drain_effect(reg, done).warnings,
            decreases self.inbound_model().len(),
        {
            match self.inbound.try_pop() {
                None => {
                    proof {
                        assert(false);
                    }
                },
                Some(v) => {
                    let ghost vm = v@;
                    let ghost done_before = done;
                    let ghost step = step_effect(reg, vm);
                    let ghost ops0 = ops.deep_view();
                    let ghost pay0 = payloads.deep_view();
                    let ghost warn0 = warnings.deep_view();
                    let ghost out_entry = self.outbound_model();
                    match decode_gui(&v) {
                        Ok(GuiMessage::Init) => {
                            let ghost inb_entry = self.inbound_model();
                            let n = registry.len();
                            let mut i: usize = 0;
                            while i < n
                                invariant
                                    registry@ == reg,
                                    n == reg.len(),
                                    i <= n,
                                    self.inbound_bound() == bound0,
                                    self.inbound_model() == inb_entry,
                                    self.outbound_model() == out_entry + init_messages(
                                        reg,
                                    ).take(i as int),
                                decreases n - i,
                            {
                                let info = registry.get(i);
                                let entry_id = info.id.clone();
                                let entry_value = info.value;
                                self.outbound.push(
                                    PluginMessage::ParamChange(
                                        ParamChange { id: entry_id, value: entry_value },
                                    ),
                                );
                                proof {
                                    assert(init_messages(reg).take(i as int + 1) =~= init_messages(
                                        reg,
                                    ).take(i as int).push(
                                        PluginMessageModel::ParamChange(
                                            ParamChangeModel {
                                                id: reg[i as int].id,
                                                value: reg[i as int].value,
                                            },
                                        ),
                                    ));
                                    assert(self.outbound_model() =~= out_entry + init_messages(
                                        reg,
                                    ).take(i as int + 1));
                                }
                                i += 1;
                            }
                            proof {
                                assert(init_messages(reg).take(n as int) =~= init_messages(reg));
                                assert(step.outbound == init_messages(reg));
                            }
                        },
                        Ok(GuiMessage::ParamChange(pc)) => {
                            let clamped = pc.value.clamp_unit();
                            match registry.apply(pc.id.as_str(), clamped) {
                                Ok(mut triad_ops) => {
                                    ops.append(&mut triad_ops);
                                    proof {
                                        assert(step.ops == triad(pc.id@, clamped));
                                        assert(ops.deep_view() =~= ops0 + step.ops);
                                    }
                                },
                                Err(_) => {
                                    warnings.push(Warning::UnknownParameter { id: pc.id });
                                    proof {
                                        assert(step.warnings =~= seq![
                                            WarningModel::UnknownParameter { id: pc.id@ },
                                        ]);
                                        assert(warnings.deep_view() =~= warn0 + step.warnings);
                                    }
                                },
                            }
                        },
                        Ok(GuiMessage::Message(p)) => {
                            let ghost pm = p@;
                            payloads.push(p);
                            proof {
                                assert(step.payloads =~= seq![pm]);
                                assert(payloads.deep_view() =~= pay0 + step.payloads);
                            }
                        },
                        Err(_) => {
                            warnings.push(Warning::MalformedInbound { value: v });
                            proof {
                                assert(step.warnings =~= seq![
                                    WarningModel::MalformedInbound { value: vm },
                                ]);
                                assert(warnings.deep_view() =~= warn0 + step.warnings);
                            }
                        },
                    }
                    proof {
                        done = done_before.push(vm);
                        lemma_drain_effect_snoc(reg, done_before, vm);
                        assert(all =~= done + self.inbound_model());
                        assert(self.outbound_model() =~= out0 + drain_effect(reg, done).outbound);
                        assert(ops.deep_view() =~= drain_effect(reg, done).ops);
                        assert(payloads.deep_view() =~= drain_effect(reg, done).payloads);
                        assert(warnings.deep_view() =~= drain_effect(reg, done).warnings);
                    }
                },
            }
        }
        proof {
            assert(self.inbound_model() =~= Seq::<ValueModel>::empty());
            assert(all =~= done);
        }
        InboundReport { ops, payloads, warnings }
    }

    /// The outbound phase of one tick: drains the plugin-to-GUI queue fully
    /// and encodes each message for the transport, which delivers them in
    /// the same first-in first-out order they were queued.
    pub fn drain_outbound(&mut self) -> (r: Vec<WireValue>)
        ensures
            final(self).outbound_model() == Seq::<PluginMessageModel>::empty(),
            final(self).inbound_model() == old(self).inbound_model(),
            final(self).inbound_bound() == old(self).inbound_bound(),
            r.deep_view() == encode_all(old(self).outbound_model()),
    {
        let ghost all = self.outbound_model();
        let ghost inb0 = self.inbound_model();
        let ghost bound0 = self.inbound_bound();
        let mut encoded_out: Vec<WireValue> = Vec::new();
        let ghost mut done: Seq<PluginMessageModel> = Seq::<PluginMessageModel>::empty();
        proof {
            assert(all =~= done + self.outbound_model());
            assert(encoded_out.deep_view() =~= encode_all(done));
        }
        while !self.outbound.is_empty()
            invariant
                self.inbound_model() == inb0,
                self.inbound_bound() == bound0,
                all == done + self.outbound_model(),
                encoded_out.deep_view() == encode_all(done),
            decreases self.outbound_model().len(),
        {
            match self.outbound.try_pop() {
                None => {
                    proof {
                        assert(false);
                    }
                },
                Some(m) => {
                    let ghost mm = m@;
                    let ghost dv0 = encoded_out.deep_view();
                    let encoded = encode_plugin(m);
                    encoded_out.push(encoded);
                    proof {
                        assert(encode_all(done.push(mm)) =~= encode_all(done).push(
                        spec_encode_plugin(mm)));
                        done = done.push(mm);
                        assert(encoded_out.deep_view() =~= encode_all(done));
                        assert(all =~= done + self.outbound_model());
                    }
                },
            }
        }
        proof {
            assert(self.outbound_model() =~= Seq::<PluginMessageModel>::empty());
            assert(all =~= done);
        }
        encoded_out
    }

    /// The send capability of the custom message extension point: queues one
    /// outbound application message for the GUI.  The handler must enqueue
    /// rather than wait; delivery happens in the next outbound drain.
    pub fn send_message(&mut self, payload: WireValue)
        ensures
            final(self).inbound_model() == old(self).inbound_model(),
            final(self).inbound_bound() == old(self).inbound_bound(),
            final(self).outbound_model() == old(self).outbound_model().push(
                PluginMessageModel::Message(payload@),
            ),
    {
        self.outbound.push(PluginMessage::Message(payload));
    }
}

} // verus!
