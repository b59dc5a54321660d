//! The system event interceptor: records every envelope that crosses the
//! bus, keeping at most a fixed number of the most recent ones, so the
//! system stays debuggable.

use vstd::prelude::*;

use crate::commands::CoreError;
use crate::dispatch::bus_effect;
use crate::dispatch::Dispatcher;
use crate::dispatch::StepV;
use crate::plugin::decode_status;
use crate::plugin::encode_status;
use crate::plugin::spec_dec_status;
use crate::plugin::spec_enc_status;
use crate::plugin::IPluginStateStorage;
use crate::plugin::PluginInfo;
use crate::plugin::PluginStatus;
use crate::value::fields_view;
use crate::value::lemma_fields_view;
use crate::value::lemma_seq_view;
use crate::value::spec_fields_get;
use crate::value::spec_get;
use crate::value::SpecValue;
use crate::value::StructValue;
use std::collections::VecDeque;

verus! {

/// One intercepted envelope.
#[derive(Debug)]
pub struct SystemEvent {
    pub sender: String,
    pub action: String,
    pub args: StructValue,
}

/// The mathematical model of a `SystemEvent`.
#[verifier::ext_equal]
pub ghost struct SystemEventV {
    pub sender: Seq<char>,
    pub action: Seq<char>,
    pub args: SpecValue,
}

impl View for SystemEvent {
    type V = SystemEventV;

    open spec fn view(&self) -> SystemEventV {
        SystemEventV { sender: self.sender@, action: self.action@, args: self.args@ }
    }
}

/// The models of recorded events, oldest first.
pub open spec fn events_view(q: Seq<SystemEvent>) -> Seq<SystemEventV> {
    Seq::new(q.len(), |i: int| q[i]@)
}

/// Records every envelope delivered to it, oldest first, holding at most
/// `maximum_log_count` events.
#[derive(Debug)]
pub struct SystemEventInterceptor {
    pub status: PluginStatus,
    pub collected_events: VecDeque<SystemEvent>,
    pub maximum_log_count: u32,
}

/// The mathematical model of a `SystemEventInterceptor`.
#[verifier::ext_equal]
pub ghost struct SystemEventInterceptorV {
    pub status: PluginStatus,
    pub events: Seq<SystemEventV>,
    pub maximum: int,
}

impl View for SystemEventInterceptor {
    type V = SystemEventInterceptorV;

    open spec fn view(&self) -> SystemEventInterceptorV {
        SystemEventInterceptorV {
            status: self.status,
            events: events_view(self.collected_events@),
            maximum: self.maximum_log_count as int,
        }
    }
}

/// How the interceptor reacts to one delivered envelope: it records the
/// envelope, drops the oldest record if the cap is exceeded, and asks for a
/// redraw.
pub open spec fn interceptor_step(
    m: SystemEventInterceptorV,
    sender: Seq<char>,
    action: Seq<char>,
    args: SpecValue,
) -> StepV<SystemEventInterceptorV> {
    let pushed = m.events.push(SystemEventV { sender, action, args });
    let events = if pushed.len() > m.maximum {
        pushed.skip(1)
    } else {
        pushed
    };
    StepV {
        state: SystemEventInterceptorV { status: m.status, events, maximum: m.maximum },
        publishes: Seq::empty(),
        requests: Seq::empty(),
        notify: true,
    }
}

/// Encoding of one recorded event as a structured value.
pub open spec fn spec_enc_event(e: SystemEventV) -> SpecValue {
    SpecValue::Object(
        seq![
            ("sender"@, SpecValue::Text(e.sender)),
            ("action"@, SpecValue::Text(e.action)),
            ("args"@, e.args),
        ],
    )
}

/// Decoding of one recorded event.
pub open spec fn spec_dec_event(v: SpecValue) -> Option<SystemEventV> {
    match (spec_get(v, "sender"@), spec_get(v, "action"@), spec_get(v, "args"@)) {
        (
            Option::Some(SpecValue::Text(sender)),
            Option::Some(SpecValue::Text(action)),
            Option::Some(args),
        ) => Option::Some(SystemEventV { sender, action, args }),
        _ => Option::None,
    }
}

/// The snapshot `get_state` reports.
pub open spec fn interceptor_snapshot(m: SystemEventInterceptorV) -> SpecValue {
    SpecValue::Object(
        seq![
            ("status"@, spec_enc_status(m.status)),
            (
                "collected_events"@,
                SpecValue::List(Seq::new(m.events.len(), |i: int| spec_enc_event(m.events[i]))),
            ),
            ("maximum_log_count"@, SpecValue::Int(m.maximum)),
        ],
    )
}

/// The recorded events decoded from the persisted list, if every element
/// decodes.
pub open spec fn interceptor_restore_of(items: Seq<SpecValue>) -> Option<Seq<SystemEventV>> {
    if forall|k: int| 0 <= k < items.len() ==> (#[trigger] spec_dec_event(items[k])) is Some {
        Option::Some(Seq::new(items.len(), |k: int| spec_dec_event(items[k])->Some_0))
    } else {
        Option::None
    }
}

/// Decoding of a persisted interceptor snapshot.
pub open spec fn interceptor_restore(v: SpecValue) -> Option<SystemEventInterceptorV> {
    match (
        spec_get(v, "status"@),
        spec_get(v, "collected_events"@),
        spec_get(v, "maximum_log_count"@),
    ) {
        (Option::Some(st), Option::Some(SpecValue::List(items)), Option::Some(
            SpecValue::Int(maximum),
        )) => {
            match (spec_dec_status(st), interceptor_restore_of(items)) {
                (Option::Some(status), Option::Some(events)) => {
                    if 0 <= maximum <= u32::MAX {
                        Option::Some(SystemEventInterceptorV { status, events, maximum })
                    } else {
                        Option::None
                    }
                },
                _ => Option::None,
            }
        },
        _ => Option::None,
    }
}

/// Encodes one event; the result models `spec_enc_event`.
pub fn encode_event(e: &SystemEvent) -> (r: StructValue)
    ensures
        r@ == spec_enc_event(e@),
{
    let mut fields: Vec<(String, StructValue)> = Vec::new();
    fields.push(("sender".to_owned(), StructValue::Text(e.sender.clone())));
    fields.push(("action".to_owned(), StructValue::Text(e.action.clone())));
    fields.push(("args".to_owned(), e.args.duplicate()));
    let ghost gf = fields@;
    let r = StructValue::Object(fields);
    proof {
        lemma_fields_view(gf);
        assert(fields_view(gf) =~= spec_enc_event(e@)->Object_0);
        assert(r@ == spec_enc_event(e@));
    }
    r
}

/// Decodes one event; the result models `spec_dec_event`.
pub fn decode_event(v: &StructValue) -> (r: Option<SystemEvent>)
    ensures
        match r {
            Option::Some(e) => spec_dec_event(v@) == Option::Some(e@),
            Option::None => spec_dec_event(v@) is None,
        },
{
    let sender = match v.get("sender") {
        Option::Some(s) => match s.as_text() {
            Option::Some(t) => t,
            Option::None => {
                return Option::None;
            },
        },
        Option::None => {
            return Option::None;
        },
    };
    let action = match v.get("action") {
        Option::Some(s) => match s.as_text() {
            Option::Some(t) => t,
            Option::None => {
                return Option::None;
            },
        },
        Option::None => {
            return Option::None;
        },
    };
    let args = match v.get("args") {
        Option::Some(a) => a.duplicate(),
        Option::None => {
            return Option::None;
        },
    };
    Option::Some(SystemEvent { sender: sender.clone(), action: action.clone(), args })
}

/// Law: decoding an encoded event restores it.
pub proof fn lemma_event_round_trip(e: SystemEventV)
    ensures
        spec_dec_event(spec_enc_event(e)) == Option::Some(e),
{
    reveal_strlit("sender");
    reveal_strlit("action");
    reveal_strlit("args");
    assert("sender"@[0] == 's');
    assert("action"@[0] == 'a');
    assert("args"@.len() == 4);
    assert("sender"@.len() == 6);
    let fields = spec_enc_event(e)->Object_0;
    crate::value::lemma_fields_get_found(fields, "sender"@, 0);
    crate::value::lemma_fields_get_found(fields, "action"@, 1);
    crate::value::lemma_fields_get_found(fields, "args"@, 2);
}

impl SystemEventInterceptor {
    /// A fresh interceptor: nothing recorded, initially disabled, capped at
    /// 512 events.
    pub fn new() -> (r: Self)
        ensures
            r@ == (SystemEventInterceptorV {
                status: PluginStatus::Disabled,
                events: Seq::empty(),
                maximum: 512,
            }),
    {
        let r = SystemEventInterceptor {
            status: PluginStatus::Disabled,
            collected_events: VecDeque::with_capacity(512),
            maximum_log_count: 512,
        };
        proof {
            assert(r@.events =~= Seq::<SystemEventV>::empty());
        }
        r
    }

    /// This plugin's immutable identity.
    pub fn info(&self) -> (r: PluginInfo)
        ensures
            r.uuid@ == "f9006025-8a2c-424f-b9a7-e9fb5aeddedf"@,
            r.name@ == "System event logger (Core)"@,
            r.description@ == "Collects all the system events, commands to provide debuggrable feature."@,
            r.version == (0usize, 0usize, 1usize),
            r.author@ == "dream-lab"@,
    {
        PluginInfo {
            uuid: "f9006025-8a2c-424f-b9a7-e9fb5aeddedf",
            name: "System event logger (Core)".to_owned(),
            description: "Collects all the system events, commands to provide debuggrable feature.".to_owned(),
            author: "dream-lab",
            version: (0, 0, 1),
        }
    }

    /// The current lifecycle status.
    pub fn status(&self) -> (r: PluginStatus)
        ensures
            r == self.status,
    {
        self.status
    }

    /// One-time setup before the first enable; the interceptor needs none.
    pub fn initialize(&mut self)
        ensures
            *final(self) == *old(self),
    {
    }

    /// Starts receiving envelopes.  Idempotent.
    pub fn enable(&mut self)
        ensures
            final(self)@ == (SystemEventInterceptorV {
                status: PluginStatus::Enabled,
                ..old(self)@
            }),
    {
        self.status = PluginStatus::Enabled;
    }

    /// Stops receiving envelopes but keeps the recorded events.  Idempotent.
    pub fn disable(&mut self)
        ensures
            final(self)@ == (SystemEventInterceptorV {
                status: PluginStatus::Disabled,
                ..old(self)@
            }),
    {
        self.status = PluginStatus::Disabled;
    }

    /// Handles one delivered envelope, exactly as `interceptor_step` says.
    pub fn handle_message(
        &mut self,
        bus: &mut Dispatcher,
        project_path: &Option<String>,
        sender: &str,
        action: &str,
        args: StructValue,
    )
        requires
            old(bus).inv(),
            old(bus).busy(),
        ensures
            final(bus).inv(),
            ({
                let st = interceptor_step(old(self)@, sender@, action@, args@);
                final(self)@ == st.state && bus_effect(
                    *old(bus),
                    *final(bus),
                    st.publishes,
                    st.requests,
                    st.notify,
                )
            }),
    {
        let event = SystemEvent {
            sender: sender.to_owned(),
            action: action.to_owned(),
            args,
        };
        let ghost ev = event@;
        self.collected_events.push_back(event);
        proof {
            assert(events_view(self.collected_events@) =~= events_view(
                old(self).collected_events@,
            ).push(ev));
        }
        if self.collected_events.len() > self.maximum_log_count as usize {
            let ghost before = events_view(self.collected_events@);
            let dropped = self.collected_events.pop_front();
            proof {
                assert(events_view(self.collected_events@) =~= before.skip(1));
            }
        }
        bus.notify_ui();
        proof {
            let st = interceptor_step(old(self)@, sender@, action@, args@);
            assert(self@.events =~= st.state.events);
            assert(self@ == st.state);
        }
    }

    /// A read-only structured snapshot for diagnostics and the UI.
    pub fn get_state(&self) -> (r: StructValue)
        ensures
            r@ == interceptor_snapshot(self@),
    {
        let mut events: Vec<StructValue> = Vec::new();
        let n = self.collected_events.len();
        let mut i: usize = 0;
        while i < n
            invariant
                n == self.collected_events@.len(),
                i <= n,
                events@.len() == i,
                forall|k: int|
                    0 <= k < i ==> #[trigger] events@[k]@ == spec_enc_event(
                        self.collected_events@[k]@,
                    ),
            decreases n - i,
        {
            let encoded = encode_event(&self.collected_events[i]);
            events.push(encoded);
            i = i + 1;
        }
        let ghost ge = events@;
        let mut fields: Vec<(String, StructValue)> = Vec::new();
        fields.push(("status".to_owned(), encode_status(self.status)));
        fields.push(("collected_events".to_owned(), StructValue::List(events)));
        fields.push(("maximum_log_count".to_owned(), StructValue::Int(self.maximum_log_count as i64)));
        let ghost gf = fields@;
        let r = StructValue::Object(fields);
        proof {
            lemma_seq_view(ge);
            lemma_fields_view(gf);
            assert(crate::value::seq_view(ge) =~= interceptor_snapshot(self@)->Object_0[1].1->List_0);
            assert(fields_view(gf) =~= interceptor_snapshot(self@)->Object_0);
            assert(r@ == interceptor_snapshot(self@));
        }
        r
    }

    /// Persists the snapshot that `get_state` reports.
    pub fn store_state<S: IPluginStateStorage>(&self, storage: &mut S)
        ensures
            final(storage).stored() == interceptor_snapshot(self@),
    {
        let snapshot = self.get_state();
        storage.store_state(snapshot);
    }

    /// Restores status, events and cap from the last persisted snapshot; a
    /// snapshot that does not decode leaves the interceptor unchanged and
    /// reports the failure instead of aborting.
    pub fn load_state<S: IPluginStateStorage>(&mut self, storage: &mut S) -> (r: Result<
        (),
        CoreError,
    >)
        ensures
            final(storage).stored() == old(storage).stored(),
            match interceptor_restore(old(storage).stored()) {
                Option::Some(m) => r is Ok && final(self)@ == m,
                Option::None => r == Result::<(), CoreError>::Err(
                    CoreError::StateDeserializationFailed,
                ) && *final(self) == *old(self),
            },
    {
        let value = storage.load_state();
        match decode_interceptor_snapshot(&value) {
            Option::Some(plugin) => {
                *self = plugin;
                Result::Ok(())
            },
            Option::None => Result::Err(CoreError::StateDeserializationFailed),
        }
    }
}

/// Decodes a persisted interceptor snapshot; the result models
/// `interceptor_restore`.
pub fn decode_interceptor_snapshot(v: &StructValue) -> (r: Option<SystemEventInterceptor>)
    ensures
        match r {
            Option::Some(p) => interceptor_restore(v@) == Option::Some(p@),
            Option::None => interceptor_restore(v@) is None,
        },
{
    let status = match v.get("status") {
        Option::Some(s) => match decode_status(s) {
            Option::Some(st) => st,
            Option::None => {
                return Option::None;
            },
        },
        Option::None => {
            return Option::None;
        },
    };
    let items = match v.get("collected_events") {
        Option::Some(l) => match l.as_list() {
            Option::Some(items) => items,
            Option::None => {
                return Option::None;
            },
        },
        Option::None => {
            return Option::None;
        },
    };
    let maximum = match v.get("maximum_log_count") {
        Option::Some(m) => match m.as_int() {
            Option::Some(i) => i,
            Option::None => {
                return Option::None;
            },
        },
        Option::None => {
            return Option::None;
        },
    };
    if maximum < 0 || maximum > u32::MAX as i64 {
        return Option::None;
    }
    proof {
        lemma_seq_view(items@);
    }
    let ghost iv = crate::value::seq_view(items@);
    let mut events: VecDeque<SystemEvent> = VecDeque::new();
    let n = items.len();
    let mut i: usize = 0;
    while i < n
        invariant
            n == items@.len(),
            i <= n,
            events@.len() == i,
            iv == crate::value::seq_view(items@),
            iv.len() == items@.len(),
            forall|k: int| 0 <= k < items@.len() ==> #[trigger] iv[k] == items@[k]@,
            forall|k: int|
                0 <= k < i ==> spec_dec_event(iv[k]) == Option::Some(
                    #[trigger] events_view(events@)[k],
                ),
            interceptor_restore(v@) == ({
                match interceptor_restore_of(iv) {
                    Option::Some(es) => Option::Some(
                        SystemEventInterceptorV {
                            status: spec_dec_status(spec_enc_status(status))->Some_0,
                            events: es,
                            maximum: maximum as int,
                        },
                    ),
                    Option::None => Option::None::<SystemEventInterceptorV>,
                }
            }),
            spec_dec_status(spec_enc_status(status)) == Option::Some(status),
        decreases n - i,
    {
        let event = match decode_event(&items[i]) {
            Option::Some(e) => e,
            Option::None => {
                proof {
                    assert(spec_dec_event(iv[i as int]) is None);
                }
                return Option::None;
            },
        };
        let ghost ev = event@;
        let ghost before = events_view(events@);
        events.push_back(event);
        proof {
            assert(events_view(events@) =~= before.push(ev));
        }
        i = i + 1;
    }
    proof {
        lemma_events_restore(iv, events_view(events@));
    }
    Option::Some(
        SystemEventInterceptor {
            status,
            collected_events: events,
            maximum_log_count: maximum as u32,
        },
    )
}

/// If every element of `items` decodes to the matching recorded event, the
/// decoded list is exactly those events.
proof fn lemma_events_restore(items: Seq<SpecValue>, events: Seq<SystemEventV>)
    requires
        items.len() == events.len(),
        forall|k: int|
            0 <= k < items.len() ==> spec_dec_event(#[trigger] items[k]) == Option::Some(
                events[k],
            ),
    ensures
        interceptor_restore_of(items) == Option::Some(events),
{
    assert(interceptor_restore_of(items)->Some_0 =~= events);
}

/// Law: restoring the persisted snapshot of any interceptor yields exactly
/// its state, so a store followed by a load leaves `get_state` unchanged.
pub proof fn lemma_interceptor_state_round_trip(m: SystemEventInterceptorV)
    requires
        0 <= m.maximum <= u32::MAX,
    ensures
        interceptor_restore(interceptor_snapshot(m)) == Option::Some(m),
{
    reveal_strlit("status");
    reveal_strlit("collected_events");
    reveal_strlit("maximum_log_count");
    assert("status"@.len() == 6);
    assert("collected_events"@.len() == 16);
    assert("maximum_log_count"@.len() == 17);
    crate::plugin::lemma_status_round_trip(m.status);
    let fields = interceptor_snapshot(m)->Object_0;
    crate::value::lemma_fields_get_found(fields, "status"@, 0);
    crate::value::lemma_fields_get_found(fields, "collected_events"@, 1);
    crate::value::lemma_fields_get_found(fields, "maximum_log_count"@, 2);
    let items = fields[1].1->List_0;
    assert forall|k: int| 0 <= k < items.len() implies spec_dec_event(#[trigger] items[k])
        == Option::Some(m.events[k]) by {
        assert(items[k] == spec_enc_event(m.events[k]));
        lemma_event_round_trip(m.events[k]);
    }
    lemma_events_restore(items, m.events);
}

} // verus!
