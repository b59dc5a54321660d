//! The coordinator: owns the plugin registry, the FIFO envelope queue, the
//! re-entrancy guard, and the host callback, and drives dispatch.  Every
//! published envelope is delivered to every plugin that is enabled at the
//! moment of its delivery, in registration order, and global delivery order
//! is publish order, also for envelopes published from inside a handler.

use vstd::prelude::*;

use crate::commands::Envelope;
use crate::commands::ICommand;
use crate::commands::SpecEnvelope;
use crate::dispatch::block_upto;
use crate::dispatch::bus_effect;
use crate::dispatch::envs_of;
use crate::dispatch::lemma_trace_of_push;
use crate::dispatch::trace_of;
use crate::dispatch::DeliveredRec;
use crate::dispatch::DeliveryRec;
use crate::dispatch::Dispatcher;
use crate::dispatch::HostRequest;
use crate::dispatch::HostRequestV;
use crate::dispatch::StepV;
use crate::plugin::PluginStatus;
use crate::plugins::event_interceptor::interceptor_step;
use crate::plugins::event_interceptor::SystemEventInterceptor;
use crate::plugins::event_interceptor::SystemEventInterceptorV;
use crate::plugins::file_manager::fm_step;
use crate::plugins::file_manager::FileManager;
use crate::plugins::file_manager::FileManagerV;
use crate::plugins::logger::logger_step;
use crate::plugins::logger::Logger;
use crate::plugins::logger::LoggerV;
use crate::plugins::project_manager::pm_step;
use crate::plugins::project_manager::ProjectManager;
use crate::plugins::project_manager::ProjectManagerV;
use crate::plugins::window_manager::wm_step;
use crate::plugins::window_manager::WindowManager;
use crate::plugins::window_manager::WindowManagerV;
use crate::value::opt_text_view;
use crate::value::StructValue;

verus! {

/// The callback a host supplies so the coordinator can ask for a redraw.
/// The signal is one-way and never fails; nothing is promised of it.
pub trait IHostNotifier {
    /// Called after a dispatch during which some plugin asked for a redraw.
    fn notify(&mut self);
}

/// The no-op host callback, for tests and headless use.
pub struct NullNotifier {}

impl IHostNotifier for NullNotifier {
    fn notify(&mut self) {
    }
}

/// The concrete plugin kinds this coordinator hosts.  The registry is
/// looked up by kind, which stands in for lookup by concrete type.
#[derive(Debug, Clone, Copy, PartialEq, Eq, Structural)]
pub enum PluginKind {
    SystemEventInterceptor,
    Logger,
    ProjectManager,
    WindowManager,
    FileManager,
}

/// One live plugin instance in the registry.
#[derive(Debug)]
pub enum PluginSlot {
    SystemEventInterceptor(SystemEventInterceptor),
    Logger(Logger),
    ProjectManager(ProjectManager),
    WindowManager(WindowManager),
    FileManager(FileManager),
}

/// The mathematical model of a `PluginSlot`.
#[verifier::ext_equal]
pub ghost enum PluginSlotV {
    SystemEventInterceptor(SystemEventInterceptorV),
    Logger(LoggerV),
    ProjectManager(ProjectManagerV),
    WindowManager(WindowManagerV),
    FileManager(FileManagerV),
}

impl View for PluginSlot {
    type V = PluginSlotV;

    open spec fn view(&self) -> PluginSlotV {
        match self {
            PluginSlot::SystemEventInterceptor(p) => PluginSlotV::SystemEventInterceptor(p@),
            PluginSlot::Logger(p) => PluginSlotV::Logger(p@),
            PluginSlot::ProjectManager(p) => PluginSlotV::ProjectManager(p@),
            PluginSlot::WindowManager(p) => PluginSlotV::WindowManager(p@),
            PluginSlot::FileManager(p) => PluginSlotV::FileManager(p@),
        }
    }
}

/// The kind of a plugin.
pub open spec fn slot_kind(v: PluginSlotV) -> PluginKind {
    match v {
        PluginSlotV::SystemEventInterceptor(_) => PluginKind::SystemEventInterceptor,
        PluginSlotV::Logger(_) => PluginKind::Logger,
        PluginSlotV::ProjectManager(_) => PluginKind::ProjectManager,
        PluginSlotV::WindowManager(_) => PluginKind::WindowManager,
        PluginSlotV::FileManager(_) => PluginKind::FileManager,
    }
}

/// The lifecycle status of a plugin.
pub open spec fn slot_status(v: PluginSlotV) -> PluginStatus {
    match v {
        PluginSlotV::SystemEventInterceptor(p) => p.status,
        PluginSlotV::Logger(p) => p.status,
        PluginSlotV::ProjectManager(p) => p.status,
        PluginSlotV::WindowManager(p) => p.status,
        PluginSlotV::FileManager(p) => p.status,
    }
}

/// The same plugin with its status replaced.
pub open spec fn slot_set_status(v: PluginSlotV, status: PluginStatus) -> PluginSlotV {
    match v {
        PluginSlotV::SystemEventInterceptor(p) => PluginSlotV::SystemEventInterceptor(
            SystemEventInterceptorV { status, ..p },
        ),
        PluginSlotV::Logger(p) => PluginSlotV::Logger(LoggerV { status, ..p }),
        PluginSlotV::ProjectManager(p) => PluginSlotV::ProjectManager(
            ProjectManagerV { status, ..p },
        ),
        PluginSlotV::WindowManager(p) => PluginSlotV::WindowManager(
            WindowManagerV { status, ..p },
        ),
        PluginSlotV::FileManager(p) => PluginSlotV::FileManager(FileManagerV { status, ..p }),
    }
}

/// How one plugin reacts to one delivered envelope: the dispatch of its
/// concrete kind.
pub open spec fn slot_step(
    v: PluginSlotV,
    ppath: Option<Seq<char>>,
    sender: Seq<char>,
    action: Seq<char>,
    args: crate::value::SpecValue,
) -> StepV<PluginSlotV> {
    match v {
        PluginSlotV::SystemEventInterceptor(p) => {
            let st = interceptor_step(p, sender, action, args);
            StepV {
                state: PluginSlotV::SystemEventInterceptor(st.state),
                publishes: st.publishes,
                requests: st.requests,
                notify: st.notify,
            }
        },
        PluginSlotV::Logger(p) => {
            let st = logger_step(p, sender, action, args);
            StepV {
                state: PluginSlotV::Logger(st.state),
                publishes: st.publishes,
                requests: st.requests,
                notify: st.notify,
            }
        },
        PluginSlotV::ProjectManager(p) => {
            let st = pm_step(p, sender, action, args);
            StepV {
                state: PluginSlotV::ProjectManager(st.state),
                publishes: st.publishes,
                requests: st.requests,
                notify: st.notify,
            }
        },
        PluginSlotV::WindowManager(p) => {
            let st = wm_step(p, ppath, sender, action, args);
            StepV {
                state: PluginSlotV::WindowManager(st.state),
                publishes: st.publishes,
                requests: st.requests,
                notify: st.notify,
            }
        },
        PluginSlotV::FileManager(p) => {
            let st = fm_step(p, ppath, sender, action, args);
            StepV {
                state: PluginSlotV::FileManager(st.state),
                publishes: st.publishes,
                requests: st.requests,
                notify: st.notify,
            }
        },
    }
}

impl PluginSlot {
    /// The kind of this plugin.
    pub fn kind(&self) -> (r: PluginKind)
        ensures
            r == slot_kind(self@),
    {
        match self {
            PluginSlot::SystemEventInterceptor(_) => PluginKind::SystemEventInterceptor,
            PluginSlot::Logger(_) => PluginKind::Logger,
            PluginSlot::ProjectManager(_) => PluginKind::ProjectManager,
            PluginSlot::WindowManager(_) => PluginKind::WindowManager,
            PluginSlot::FileManager(_) => PluginKind::FileManager,
        }
    }

    /// This plugin's immutable identity: the identity of the concrete
    /// plugin inside, the whole quintuple pinned per kind.
    pub fn info(&self) -> (r: crate::plugin::PluginInfo)
        ensures
            r.uuid@ == match slot_kind(self@) {
                PluginKind::SystemEventInterceptor => "f9006025-8a2c-424f-b9a7-e9fb5aeddedf"@,
                PluginKind::Logger => "aacd2e16-52b1-40e8-b504-0aceffd5b466"@,
                PluginKind::ProjectManager => "3979dec2-8e5c-4860-8b1c-07a8fd2d560f"@,
                PluginKind::WindowManager => "35f27394-492c-4af5-804d-803a18a606e8"@,
                PluginKind::FileManager => "cfa0bc17-f2f7-4ca4-bd6d-1957ab5bfeff"@,
            },
            r.name@ == match slot_kind(self@) {
                PluginKind::SystemEventInterceptor => "System event logger (Core)"@,
                PluginKind::Logger => "Logger (Native plugin)"@,
                PluginKind::ProjectManager => "Project manager (Native plugin)"@,
                PluginKind::WindowManager => "Window manager"@,
                PluginKind::FileManager => "File manager (Native Plugin)"@,
            },
            r.description@ == match slot_kind(self@) {
                PluginKind::SystemEventInterceptor => "Collects all the system events, commands to provide debuggrable feature."@,
                PluginKind::Logger => "Collect logs from other plugin or extension."@,
                PluginKind::ProjectManager => "Provides Opening, Creating And Analyzing features for IDE"@,
                PluginKind::WindowManager => "Manages all the windowing functionality."@,
                PluginKind::FileManager => "Responsible to load or store files, as well as serve for file manager window."@,
            },
            r.version == (0usize, 0usize, 1usize),
            r.author@ == "dream-lab"@,
    {
        match self {
            PluginSlot::SystemEventInterceptor(p) => p.info(),
            PluginSlot::Logger(p) => p.info(),
            PluginSlot::ProjectManager(p) => p.info(),
            PluginSlot::WindowManager(p) => p.info(),
            PluginSlot::FileManager(p) => p.info(),
        }
    }

    /// The current lifecycle status.
    pub fn status(&self) -> (r: PluginStatus)
        ensures
            r == slot_status(self@),
    {
        match self {
            PluginSlot::SystemEventInterceptor(p) => p.status(),
            PluginSlot::Logger(p) => p.status(),
            PluginSlot::ProjectManager(p) => p.status(),
            PluginSlot::WindowManager(p) => p.status(),
            PluginSlot::FileManager(p) => p.status(),
        }
    }

    /// One-time setup before the first enable.
    pub fn initialize(&mut self)
        ensures
            *final(self) == *old(self),
    {
        match self {
            PluginSlot::SystemEventInterceptor(p) => p.initialize(),
            PluginSlot::Logger(p) => p.initialize(),
            PluginSlot::ProjectManager(p) => p.initialize(),
            PluginSlot::WindowManager(p) => p.initialize(),
            PluginSlot::FileManager(p) => p.initialize(),
        }
    }

    /// Sets the status to `Enabled`, touching nothing else.  Idempotent.
    pub fn enable(&mut self)
        ensures
            final(self)@ == slot_set_status(old(self)@, PluginStatus::Enabled),
    {
        match self {
            PluginSlot::SystemEventInterceptor(p) => p.enable(),
            PluginSlot::Logger(p) => p.enable(),
            PluginSlot::ProjectManager(p) => p.enable(),
            PluginSlot::WindowManager(p) => p.enable(),
            PluginSlot::FileManager(p) => p.enable(),
        }
    }

    /// Sets the status to `Disabled`, touching nothing else.  Idempotent.
    pub fn disable(&mut self)
        ensures
            final(self)@ == slot_set_status(old(self)@, PluginStatus::Disabled),
    {
        match self {
            PluginSlot::SystemEventInterceptor(p) => p.disable(),
            PluginSlot::Logger(p) => p.disable(),
            PluginSlot::ProjectManager(p) => p.disable(),
            PluginSlot::WindowManager(p) => p.disable(),
            PluginSlot::FileManager(p) => p.disable(),
        }
    }

    /// Delivers one envelope to this plugin, exactly as `slot_step` says.
    /// The plugin's kind and status never change here.
    pub fn handle_message(
        &mut self,
        bus: &mut Dispatcher,
        project_path: &Option<String>,
        sender: &str,
        action: &str,
        args: StructValue,
    )
        requires
            old(bus).inv(),
            old(bus).busy(),
        ensures
            final(bus).inv(),
            slot_kind(final(self)@) == slot_kind(old(self)@),
            slot_status(final(self)@) == slot_status(old(self)@),
            ({
                let st = slot_step(
                    old(self)@,
                    opt_text_view(*project_path),
                    sender@,
                    action@,
                    args@,
                );
                final(self)@ == st.state && bus_effect(
                    *old(bus),
                    *final(bus),
                    st.publishes,
                    st.requests,
                    st.notify,
                )
            }),
    {
        match self {
            PluginSlot::SystemEventInterceptor(p) => {
                p.handle_message(bus, project_path, sender, action, args)
            },
            PluginSlot::Logger(p) => p.handle_message(bus, project_path, sender, action, args),
            PluginSlot::ProjectManager(p) => {
                p.handle_message(bus, project_path, sender, action, args)
            },
            PluginSlot::WindowManager(p) => {
                p.handle_message(bus, project_path, sender, action, args)
            },
            PluginSlot::FileManager(p) => {
                p.handle_message(bus, project_path, sender, action, args)
            },
        }
    }

    /// The interceptor inside, if this slot holds one.
    pub fn as_event_interceptor(&self) -> (r: Option<&SystemEventInterceptor>)
        ensures
            match r {
                Option::Some(p) => self@ == PluginSlotV::SystemEventInterceptor(p@),
                Option::None => !(self@ is SystemEventInterceptor),
            },
    {
        match self {
            PluginSlot::SystemEventInterceptor(p) => Option::Some(p),
            _ => Option::None,
        }
    }

    /// The logger inside, if this slot holds one.
    pub fn as_logger(&self) -> (r: Option<&Logger>)
        ensures
            match r {
                Option::Some(p) => self@ == PluginSlotV::Logger(p@),
                Option::None => !(self@ is Logger),
            },
    {
        match self {
            PluginSlot::Logger(p) => Option::Some(p),
            _ => Option::None,
        }
    }

    /// The project manager inside, if this slot holds one.
    pub fn as_project_manager(&self) -> (r: Option<&ProjectManager>)
        ensures
            match r {
                Option::Some(p) => self@ == PluginSlotV::ProjectManager(p@),
                Option::None => !(self@ is ProjectManager),
            },
    {
        match self {
            PluginSlot::ProjectManager(p) => Option::Some(p),
            _ => Option::None,
        }
    }

    /// The window manager inside, if this slot holds one.
    pub fn as_window_manager(&self) -> (r: Option<&WindowManager>)
        ensures
            match r {
                Option::Some(p) => self@ == PluginSlotV::WindowManager(p@),
                Option::None => !(self@ is WindowManager),
            },
    {
        match self {
            PluginSlot::WindowManager(p) => Option::Some(p),
            _ => Option::None,
        }
    }

    /// The file manager inside, if this slot holds one.
    pub fn as_file_manager(&self) -> (r: Option<&FileManager>)
        ensures
            match r {
                Option::Some(p) => self@ == PluginSlotV::FileManager(p@),
                Option::None => !(self@ is FileManager),
            },
    {
        match self {
            PluginSlot::FileManager(p) => Option::Some(p),
            _ => Option::None,
        }
    }
}

/// The enabled-flags of a registry, by position.
pub open spec fn enabled_flags(plugins: Seq<PluginSlotV>) -> Seq<bool> {
    Seq::new(plugins.len(), |i: int| slot_status(plugins[i]) == PluginStatus::Enabled)
}

/// The fixed registration order of the hosted plugins.
pub open spec fn registry_layout() -> Seq<PluginKind> {
    seq![
        PluginKind::SystemEventInterceptor,
        PluginKind::Logger,
        PluginKind::ProjectManager,
        PluginKind::WindowManager,
        PluginKind::FileManager,
    ]
}

/// A well-formed registry: the five plugins, in registration order.
pub open spec fn wf_registry(plugins: Seq<PluginSlotV>) -> bool {
    &&& plugins.len() == 5
    &&& forall|k: int|
        0 <= k < 5 ==> slot_kind(#[trigger] plugins[k]) == registry_layout()[k]
}

/// First registry position holding a plugin of `kind`, if any.
pub open spec fn find_kind(plugins: Seq<PluginSlotV>, kind: PluginKind) -> Option<int>
    decreases plugins.len(),
{
    if plugins.len() == 0 {
        Option::None
    } else if slot_kind(plugins[0]) == kind {
        Option::Some(0)
    } else {
        match find_kind(plugins.skip(1), kind) {
            Option::Some(j) => Option::Some(j + 1),
            Option::None => Option::None,
        }
    }
}

/// If `plugins[i]` is the first slot of `kind`, the search returns `i`.
proof fn lemma_find_kind_found(plugins: Seq<PluginSlotV>, kind: PluginKind, i: int)
    requires
        0 <= i < plugins.len(),
        slot_kind(plugins[i]) == kind,
        forall|k: int| 0 <= k < i ==> slot_kind(#[trigger] plugins[k]) != kind,
    ensures
        find_kind(plugins, kind) == Option::Some(i),
    decreases i,
{
    if i > 0 {
        lemma_find_kind_found(plugins.skip(1), kind, i - 1);
    }
}

/// If no slot has `kind`, the search returns nothing.
proof fn lemma_find_kind_missing(plugins: Seq<PluginSlotV>, kind: PluginKind)
    requires
        forall|k: int| 0 <= k < plugins.len() ==> slot_kind(#[trigger] plugins[k]) != kind,
    ensures
        find_kind(plugins, kind) is None,
    decreases plugins.len(),
{
    if plugins.len() > 0 {
        lemma_find_kind_missing(plugins.skip(1), kind);
    }
}

/// Law: in a well-formed registry the lookup of each kind always lands on
/// the same position — its registration position — so looking a plugin up
/// by kind returns the same identity every time.
pub proof fn lemma_find_kind_stable(plugins: Seq<PluginSlotV>, kind: PluginKind)
    requires
        wf_registry(plugins),
    ensures
        find_kind(plugins, kind) == match kind {
            PluginKind::SystemEventInterceptor => Option::Some(0int),
            PluginKind::Logger => Option::Some(1int),
            PluginKind::ProjectManager => Option::Some(2int),
            PluginKind::WindowManager => Option::Some(3int),
            PluginKind::FileManager => Option::Some(4int),
        },
{
    match kind {
        PluginKind::SystemEventInterceptor => {
            lemma_find_kind_found(plugins, kind, 0);
        },
        PluginKind::Logger => {
            lemma_find_kind_found(plugins, kind, 1);
        },
        PluginKind::ProjectManager => {
            lemma_find_kind_found(plugins, kind, 2);
        },
        PluginKind::WindowManager => {
            lemma_find_kind_found(plugins, kind, 3);
        },
        PluginKind::FileManager => {
            lemma_find_kind_found(plugins, kind, 4);
        },
    }
}

/// Law: each delivery block of the trace delivers one envelope to exactly
/// the plugins enabled at that moment — every enabled plugin appears, no
/// disabled one does — in ascending registry order.
pub proof fn lemma_block_upto_shape(env: SpecEnvelope, enabled: Seq<bool>, i: int)
    requires
        0 <= i <= enabled.len(),
    ensures
        forall|t: int|
            0 <= t < block_upto(env, enabled, i).len() ==> {
                let rec = #[trigger] block_upto(env, enabled, i)[t];
                rec.env == env && 0 <= rec.plugin < i && enabled[rec.plugin]
            },
        forall|s: int, t: int|
            0 <= s < t < block_upto(env, enabled, i).len() ==> (#[trigger] block_upto(
                env,
                enabled,
                i,
            )[s]).plugin < (#[trigger] block_upto(env, enabled, i)[t]).plugin,
        forall|j: int|
            0 <= j < i && enabled[j] ==> exists|t: int|
                0 <= t < block_upto(env, enabled, i).len() && (#[trigger] block_upto(
                    env,
                    enabled,
                    i,
                )[t]).plugin == j,
    decreases i,
{
    if i > 0 {
        lemma_block_upto_shape(env, enabled, i - 1);
        let block = block_upto(env, enabled, i);
        let shorter = block_upto(env, enabled, i - 1);
        assert forall|j: int|
            0 <= j < i && enabled[j] implies exists|t: int|
            0 <= t < block.len() && (#[trigger] block[t]).plugin == j by {
            if j < i - 1 {
                let t = choose|t: int|
                    0 <= t < shorter.len() && (#[trigger] shorter[t]).plugin == j;
                assert(block[t].plugin == j);
            } else {
                assert(block[block.len() - 1].plugin == j);
            }
        }
    }
}

/// Law: replacing a status is idempotent: enabling an enabled plugin, or
/// disabling a disabled one, leaves it exactly as it was.
pub proof fn lemma_set_status_idempotent(v: PluginSlotV, status: PluginStatus)
    ensures
        slot_set_status(slot_set_status(v, status), status) == slot_set_status(v, status),
        slot_status(v) == status ==> slot_set_status(v, status) == v,
{
}

/// How much further bus traffic an envelope can cause: its handlers only
/// ever publish envelopes of strictly smaller rank, so every drain loop
/// terminates.  A loaded project file triggers the `Opened` announcement;
/// `Opened` triggers a reload command and a dock-load command; those, and
/// every other ranked envelope, only produce log lines and announcements
/// that nobody answers.
pub open spec fn env_rank(e: SpecEnvelope) -> int {
    if e.action == crate::plugins::project_manager::pm_io_action() {
        if crate::plugins::project_manager::spec_dec_pm_io(e.payload)
            matches Option::Some(crate::plugins::project_manager::ProjectManagerIoV::Loaded { .. }) {
            3
        } else {
            1
        }
    } else if e.action == crate::plugins::project_manager::pm_event_action() {
        if crate::plugins::project_manager::spec_dec_pm_event(e.payload)
            matches Option::Some(
            crate::plugins::project_manager::ProjectManagerEventV::Opened { .. },
        ) {
            2
        } else {
            0
        }
    } else if e.action == crate::plugins::project_manager::pm_action() {
        1
    } else if e.action == crate::plugins::window_manager::wm_action() {
        1
    } else if e.action == crate::plugins::window_manager::wm_io_action() {
        1
    } else if e.action == crate::plugins::file_manager::fm_io_action() {
        1
    } else {
        0
    }
}

/// The termination weight of an envelope: exponential in its rank, so that
/// the few lower-ranked envelopes a handler publishes always weigh less
/// than the envelope being handled.
pub open spec fn env_weight(e: SpecEnvelope) -> int {
    if env_rank(e) == 3 {
        4096
    } else if env_rank(e) == 2 {
        256
    } else if env_rank(e) == 1 {
        16
    } else {
        1
    }
}

/// The total termination weight of a queue.
pub open spec fn queue_measure(q: Seq<SpecEnvelope>) -> int
    decreases q.len(),
{
    if q.len() == 0 {
        0
    } else {
        env_weight(q[0]) + queue_measure(q.drop_first())
    }
}

/// Queue weights are nonnegative.
proof fn lemma_queue_measure_nonneg(q: Seq<SpecEnvelope>)
    ensures
        queue_measure(q) >= 0,
    decreases q.len(),
{
    if q.len() > 0 {
        lemma_queue_measure_nonneg(q.drop_first());
    }
}

/// The weight of a concatenation is the sum of the weights.
proof fn lemma_queue_measure_concat(a: Seq<SpecEnvelope>, b: Seq<SpecEnvelope>)
    ensures
        queue_measure(a + b) == queue_measure(a) + queue_measure(b),
    decreases a.len(),
{
    if a.len() == 0 {
        assert(a + b =~= b);
    } else {
        lemma_queue_measure_concat(a.drop_first(), b);
        assert((a + b).drop_first() =~= a.drop_first() + b);
        assert((a + b)[0] == a[0]);
    }
}

/// Law: a handler only publishes envelopes of strictly smaller rank than
/// the envelope it is handling, and at most two of them.
proof fn lemma_slot_step_publishes_rank(
    v: PluginSlotV,
    ppath: Option<Seq<char>>,
    sender: Seq<char>,
    action: Seq<char>,
    args: crate::value::SpecValue,
)
    ensures
        ({
            let st = slot_step(v, ppath, sender, action, args);
            let r = env_rank(SpecEnvelope { sender, action, payload: args });
            &&& st.publishes.len() <= 2
            &&& forall|k: int|
                0 <= k < st.publishes.len() ==> env_rank(#[trigger] st.publishes[k]) < r
        }),
{
    reveal_strlit("designer.logger.log");
    reveal_strlit("designer.project_manager.management");
    reveal_strlit("designer.project_manager.event");
    reveal_strlit("designer.project_manager.io");
    reveal_strlit("designer.window_manager.management");
    reveal_strlit("designer.window_manager.event");
    reveal_strlit("designer.window_manager.io");
    reveal_strlit("designer.file_manager.management");
    reveal_strlit("designer.file_manager.event");
    reveal_strlit("designer.file_manager.io");
    assert("designer.logger.log"@.len() == 19);
    assert("designer.project_manager.management"@.len() == 35);
    assert("designer.project_manager.event"@.len() == 30);
    assert("designer.project_manager.io"@.len() == 27);
    assert("designer.window_manager.management"@.len() == 34);
    assert("designer.window_manager.event"@.len() == 29);
    assert("designer.window_manager.io"@.len() == 26);
    assert("designer.file_manager.management"@.len() == 32);
    assert("designer.file_manager.event"@.len() == 27);
    assert("designer.file_manager.io"@.len() == 24);
    assert("designer.project_manager.io"@[9] == 'p');
    assert("designer.file_manager.event"@[9] == 'f');
    let e = SpecEnvelope { sender, action, payload: args };
    let st = slot_step(v, ppath, sender, action, args);
    match v {
        PluginSlotV::SystemEventInterceptor(p) => {
        },
        PluginSlotV::Logger(p) => {
        },
        PluginSlotV::ProjectManager(p) => {
            if action == crate::plugins::project_manager::pm_io_action() {
                match crate::plugins::project_manager::spec_dec_pm_io(args) {
                    Option::Some(
                        crate::plugins::project_manager::ProjectManagerIoV::Loaded { path, project },
                    ) => {
                        crate::plugins::project_manager::lemma_pm_event_round_trip(
                            crate::plugins::project_manager::ProjectManagerEventV::Opened { path },
                        );
                        assert(env_rank(crate::plugins::project_manager::pm_opened_env(path))
                            == 2);
                        assert(env_rank(e) == 3);
                    },
                    Option::Some(
                        crate::plugins::project_manager::ProjectManagerIoV::LoadFailed { path },
                    ) => {
                        assert(env_rank(crate::plugins::project_manager::pm_load_error_env())
                            == 0);
                        assert(env_rank(e) == 1);
                    },
                    Option::None => {
                    },
                }
            } else if action == crate::plugins::project_manager::pm_action() {
                match crate::plugins::project_manager::spec_dec_pm_command(args) {
                    Option::Some(
                        crate::plugins::project_manager::ProjectManagerCommandV::CreateProject {
                            path,
                            project,
                        },
                    ) => {
                        crate::plugins::project_manager::lemma_pm_event_round_trip(
                            crate::plugins::project_manager::ProjectManagerEventV::Created { path },
                        );
                        assert(env_rank(crate::plugins::project_manager::pm_created_env(path))
                            == 0);
                        assert(env_rank(e) == 1);
                    },
                    _ => {
                    },
                }
            }
        },
        PluginSlotV::WindowManager(p) => {
            if action == crate::plugins::project_manager::pm_event_action() {
                match crate::plugins::project_manager::spec_dec_pm_event(args) {
                    Option::Some(
                        crate::plugins::project_manager::ProjectManagerEventV::Opened { path },
                    ) => {
                        assert(env_rank(crate::plugins::window_manager::wm_load_cmd_env()) == 1);
                        assert(env_rank(e) == 2);
                    },
                    _ => {
                    },
                }
            } else if action == crate::plugins::window_manager::wm_action() {
                match crate::plugins::window_manager::spec_dec_wm_command(args) {
                    Option::Some(
                        crate::plugins::window_manager::WindowManagerCommandV::SaveDockState(state),
                    ) => {
                        assert(env_rank(
                            crate::plugins::window_manager::wm_log_env(
                                "Succeed"@,
                                "Window dock state is stored."@,
                            ),
                        ) == 0);
                        assert(env_rank(
                            crate::plugins::window_manager::wm_event_env(
                                crate::plugins::window_manager::WindowManagerEvent::DockStateSaved,
                            ),
                        ) == 0);
                        assert(env_rank(e) == 1);
                    },
                    _ => {
                    },
                }
            } else if action == crate::plugins::window_manager::wm_io_action() {
                match crate::plugins::window_manager::spec_dec_wm_io(args) {
                    Option::Some(
                        crate::plugins::window_manager::WindowManagerIoV::DockLoaded { value },
                    ) => {
                        assert(env_rank(
                            crate::plugins::window_manager::wm_log_env(
                                "Succeed"@,
                                "Window dock state is restored."@,
                            ),
                        ) == 0);
                        assert(env_rank(
                            crate::plugins::window_manager::wm_event_env(
                                crate::plugins::window_manager::WindowManagerEvent::DockStateRestored,
                            ),
                        ) == 0);
                        assert(env_rank(e) == 1);
                    },
                    Option::Some(
                        crate::plugins::window_manager::WindowManagerIoV::DockUnreadable,
                    ) => {
                        assert(env_rank(
                            crate::plugins::window_manager::wm_log_env(
                                "Error"@,
                                "Cannot deserialize window dock state so discarded."@,
                            ),
                        ) == 0);
                        assert(env_rank(e) == 1);
                    },
                    _ => {
                    },
                }
            }
        },
        PluginSlotV::FileManager(p) => {
            if sender == crate::plugins::project_manager::pm_sender() && action
                == crate::plugins::project_manager::pm_event_action() {
                match crate::plugins::project_manager::spec_dec_pm_event(args) {
                    Option::Some(
                        crate::plugins::project_manager::ProjectManagerEventV::Opened { path },
                    ) => {
                        assert(env_rank(crate::plugins::file_manager::fm_reload_env()) == 0);
                        assert(env_rank(e) == 2);
                    },
                    _ => {
                    },
                }
            } else if action == crate::plugins::file_manager::fm_io_action() {
                match crate::plugins::file_manager::spec_dec_fm_io(args) {
                    Option::Some(
                        crate::plugins::file_manager::FileManagerIoV::TreeLoaded { root },
                    ) => {
                        assert(env_rank(crate::plugins::file_manager::fm_reopened_env()) == 0);
                        assert(env_rank(e) == 1);
                    },
                    Option::None => {
                    },
                }
            }
        },
    }
}

/// The registry as construction leaves it: the five plugins in their
/// freshly constructed states, each disabled, in registration order.
pub open spec fn fresh_registry() -> Seq<PluginSlotV> {
    seq![
        PluginSlotV::SystemEventInterceptor(
            SystemEventInterceptorV {
                status: PluginStatus::Disabled,
                events: Seq::empty(),
                maximum: 512,
            },
        ),
        PluginSlotV::Logger(LoggerV { logs: Seq::empty(), status: PluginStatus::Disabled }),
        PluginSlotV::ProjectManager(
            ProjectManagerV {
                path: Option::None,
                recent_projects: Seq::empty(),
                status: PluginStatus::Disabled,
                project: Option::None,
            },
        ),
        PluginSlotV::WindowManager(
            WindowManagerV {
                status: PluginStatus::Disabled,
                dock_state: Option::None,
                dock_changes: 0,
            },
        ),
        PluginSlotV::FileManager(
            FileManagerV { status: PluginStatus::Disabled, root: Option::None },
        ),
    ]
}

/// The central coordinator: the plugin registry, the dispatch state, and
/// the host callback.
pub struct DesignerCore<H: IHostNotifier> {
    plugins: Vec<PluginSlot>,
    bus: Dispatcher,
    host: H,
}

impl<H: IHostNotifier> DesignerCore<H> {
    /// The models of the registered plugins, in registration order.
    pub closed spec fn plugins_model(&self) -> Seq<PluginSlotV> {
        Seq::new(self.plugins@.len(), |i: int| self.plugins@[i]@)
    }

    /// The dispatch state.
    pub closed spec fn bus_state(&self) -> Dispatcher {
        self.bus
    }

    /// Every envelope ever published, in publish order.
    pub open spec fn published(&self) -> Seq<SpecEnvelope> {
        self.bus_state().published()
    }

    /// The dispatch history: envelopes whose delivery has begun, in order.
    pub open spec fn delivered(&self) -> Seq<DeliveredRec> {
        self.bus_state().delivered()
    }

    /// The individual deliveries made so far, in order.
    pub open spec fn trace(&self) -> Seq<DeliveryRec> {
        self.bus_state().trace()
    }

    /// Whether a drain loop is running.
    pub open spec fn busy(&self) -> bool {
        self.bus_state().busy()
    }

    /// The coordinator invariant: the dispatch state is coherent, the trace
    /// is exactly the deliveries of the dispatch history, and the registry
    /// holds the five plugins in registration order.
    pub open spec fn inv(&self) -> bool {
        &&& self.bus_state().inv()
        &&& self.bus_state().trace() == trace_of(self.bus_state().delivered())
        &&& wf_registry(self.plugins_model())
    }
}

/// Law: whatever sequence of publishes happened, including ones issued from
/// inside a handler, the envelopes whose delivery has begun are exactly the
/// first published envelopes, in publish order, and the trace groups each
/// envelope's deliveries — to the plugins enabled at its moment, in
/// registry order — after all deliveries of the envelopes before it.
pub proof fn lemma_dispatch_order<H: IHostNotifier>(core: DesignerCore<H>)
    requires
        core.inv(),
    ensures
        envs_of(core.delivered()) == core.published().take(core.delivered().len() as int),
        core.trace() == trace_of(core.delivered()),
{
    crate::dispatch::lemma_fifo(core.bus_state());
}

impl<H: IHostNotifier> DesignerCore<H> {
    /// A coordinator over the five plugins, each freshly constructed and
    /// still disabled, registered in the fixed order, with nothing
    /// published and an idle dispatch state.
    pub fn new(host: H) -> (r: Self)
        ensures
            r.inv(),
            !r.busy(),
            r.published() == Seq::<SpecEnvelope>::empty(),
            r.delivered() == Seq::<DeliveredRec>::empty(),
            r.trace() == Seq::<DeliveryRec>::empty(),
            r.plugins_model() == fresh_registry(),
    {
        let mut plugins: Vec<PluginSlot> = Vec::new();
        plugins.push(PluginSlot::SystemEventInterceptor(SystemEventInterceptor::new()));
        plugins.push(PluginSlot::Logger(Logger::new()));
        plugins.push(PluginSlot::ProjectManager(ProjectManager::new()));
        plugins.push(PluginSlot::WindowManager(WindowManager::new()));
        plugins.push(PluginSlot::FileManager(FileManager::new()));
        let r = DesignerCore { plugins, bus: Dispatcher::new(), host };
        proof {
            assert(r.bus_state().trace() =~= trace_of(r.bus_state().delivered()));
            assert(r.plugins_model() =~= fresh_registry());
        }
        r
    }

    /// Runs once at startup: calls `initialize` and then `enable` on every
    /// registered plugin, in registration order.  Afterwards every plugin
    /// is enabled; nothing else about them changes, and nothing is
    /// published.
    pub fn initialize_plugins(&mut self)
        requires
            old(self).inv(),
        ensures
            final(self).inv(),
            final(self).bus_state() == old(self).bus_state(),
            final(self).plugins_model().len() == 5,
            forall|k: int|
                0 <= k < 5 ==> #[trigger] final(self).plugins_model()[k] == slot_set_status(
                    old(self).plugins_model()[k],
                    PluginStatus::Enabled,
                ),
    {
        let n = self.plugins.len();
        let mut i: usize = 0;
        while i < n
            invariant
                n == 5,
                self.plugins@.len() == 5,
                i <= n,
                self.bus == old(self).bus,
                old(self).inv(),
                forall|k: int|
                    0 <= k < i ==> (#[trigger] self.plugins@[k])@ == slot_set_status(
                        old(self).plugins@[k]@,
                        PluginStatus::Enabled,
                    ),
                forall|k: int| i <= k < 5 ==> #[trigger] self.plugins@[k] == old(self).plugins@[k],
            decreases n - i,
        {
            let p = vstd::std_specs::vec::vec_index_mut(&mut self.plugins, i);
            p.initialize();
            p.enable();
            i = i + 1;
        }
        proof {
            assert forall|k: int|
                0 <= k < 5 implies #[trigger] self.plugins_model()[k] == slot_set_status(
                old(self).plugins_model()[k],
                PluginStatus::Enabled,
            ) by {
                assert((self.plugins@[k])@ == slot_set_status(
                    old(self).plugins@[k]@,
                    PluginStatus::Enabled,
                ));
            }
            assert forall|k: int|
                0 <= k < 5 implies slot_kind(#[trigger] self.plugins_model()[k])
                == registry_layout()[k] by {
                assert(self.plugins_model()[k] == slot_set_status(
                    old(self).plugins_model()[k],
                    PluginStatus::Enabled,
                ));
            }
        }
    }

    /// The project directory of the open project, if any: what the project
    /// manager currently knows.
    pub open spec fn spec_project_path(&self) -> Option<Seq<char>> {
        match self.plugins_model()[2] {
            PluginSlotV::ProjectManager(m) => m.path,
            _ => Option::None,
        }
    }

    /// Reads the open project's path out of the registry.
    fn project_path(&self) -> (r: Option<String>)
        requires
            self.plugins_model().len() == 5,
        ensures
            opt_text_view(r) == self.spec_project_path(),
    {
        match &self.plugins[2] {
            PluginSlot::ProjectManager(pm) => match &pm.path {
                Option::Some(p) => Option::Some(p.clone()),
                Option::None => Option::None,
            },
            _ => Option::None,
        }
    }

    /// Looks up the first registered plugin of `kind`; absent kinds give an
    /// empty result.  The lookup is a pure function of the registry, so it
    /// returns the same plugin every time it is called.
    pub fn get_plugin(&self, kind: PluginKind) -> (r: Option<&PluginSlot>)
        ensures
            match r {
                Option::Some(p) => {
                    &&& find_kind(self.plugins_model(), kind) is Some
                    &&& 0 <= find_kind(self.plugins_model(), kind)->Some_0
                        < self.plugins_model().len()
                    &&& p@ == self.plugins_model()[find_kind(self.plugins_model(), kind)->Some_0]
                },
                Option::None => find_kind(self.plugins_model(), kind) is None,
            },
    {
        let n = self.plugins.len();
        let mut i: usize = 0;
        while i < n
            invariant
                n == self.plugins@.len(),
                i <= n,
                forall|k: int|
                    0 <= k < i ==> slot_kind(#[trigger] self.plugins_model()[k]) != kind,
            decreases n - i,
        {
            if self.plugins[i].kind() == kind {
                proof {
                    lemma_find_kind_found(self.plugins_model(), kind, i as int);
                }
                return Option::Some(&self.plugins[i]);
            }
            i = i + 1;
        }
        proof {
            lemma_find_kind_missing(self.plugins_model(), kind);
        }
        Option::None
    }

    /// Signals the host immediately; a one-way signal that never fails.
    pub fn notify_ui(&mut self)
        ensures
            final(self).plugins_model() == old(self).plugins_model(),
            final(self).bus_state() == old(self).bus_state(),
    {
        self.host.notify();
    }

    /// Hands out the host requests collected during dispatch, leaving none.
    pub fn take_host_requests(&mut self) -> (r: Vec<HostRequest>)
        requires
            old(self).inv(),
        ensures
            final(self).inv(),
            final(self).plugins_model() == old(self).plugins_model(),
            final(self).published() == old(self).published(),
            final(self).delivered() == old(self).delivered(),
            final(self).trace() == old(self).trace(),
            final(self).busy() == old(self).busy(),
            final(self).bus_state().requests_model() == Seq::<HostRequestV>::empty(),
            r@.len() == old(self).bus_state().requests_model().len(),
            forall|k: int|
                0 <= k < r@.len() ==> #[trigger] r@[k]@ == old(
                    self,
                ).bus_state().requests_model()[k],
    {
        self.bus.take_requests()
    }

    /// Enables the first registered plugin of `kind`, so it receives
    /// dispatched envelopes again; enabling an enabled plugin changes
    /// nothing.  An absent kind changes nothing at all.
    pub fn enable_plugin(&mut self, kind: PluginKind)
        requires
            old(self).inv(),
        ensures
            final(self).inv(),
            final(self).bus_state() == old(self).bus_state(),
            match find_kind(old(self).plugins_model(), kind) {
                Option::Some(j) => final(self).plugins_model() == old(
                    self,
                ).plugins_model().update(j, slot_set_status(old(self).plugins_model()[j], PluginStatus::Enabled)),
                Option::None => final(self).plugins_model() == old(self).plugins_model(),
            },
    {
        self.set_plugin_status(kind, true)
    }

    /// Disables the first registered plugin of `kind`: it stops receiving
    /// envelopes but keeps its state; disabling a disabled plugin changes
    /// nothing.  An absent kind changes nothing at all.
    pub fn disable_plugin(&mut self, kind: PluginKind)
        requires
            old(self).inv(),
        ensures
            final(self).inv(),
            final(self).bus_state() == old(self).bus_state(),
            match find_kind(old(self).plugins_model(), kind) {
                Option::Some(j) => final(self).plugins_model() == old(
                    self,
                ).plugins_model().update(j, slot_set_status(old(self).plugins_model()[j], PluginStatus::Disabled)),
                Option::None => final(self).plugins_model() == old(self).plugins_model(),
            },
    {
        self.set_plugin_status(kind, false)
    }

    /// Sets the status of the first registered plugin of `kind`.
    fn set_plugin_status(&mut self, kind: PluginKind, enabled: bool)
        requires
            old(self).inv(),
        ensures
            final(self).inv(),
            final(self).bus_state() == old(self).bus_state(),
            match find_kind(old(self).plugins_model(), kind) {
                Option::Some(j) => final(self).plugins_model() == old(
                    self,
                ).plugins_model().update(
                    j,
                    slot_set_status(
                        old(self).plugins_model()[j],
                        if enabled {
                            PluginStatus::Enabled
                        } else {
                            PluginStatus::Disabled
                        },
                    ),
                ),
                Option::None => final(self).plugins_model() == old(self).plugins_model(),
            },
    {
        let n = self.plugins.len();
        let mut i: usize = 0;
        while i < n
            invariant
                n == self.plugins@.len(),
                *self == *old(self),
                old(self).inv(),
                i <= n,
                forall|k: int|
                    0 <= k < i ==> slot_kind(#[trigger] self.plugins_model()[k]) != kind,
            decreases n - i,
        {
            if self.plugins[i].kind() == kind {
                proof {
                    lemma_find_kind_found(self.plugins_model(), kind, i as int);
                }
                let ghost pre_model = self.plugins_model();
                let p = vstd::std_specs::vec::vec_index_mut(&mut self.plugins, i);
                if enabled {
                    p.enable();
                } else {
                    p.disable();
                }
                proof {
                    assert(self.plugins_model() =~= pre_model.update(
                        i as int,
                        slot_set_status(
                            pre_model[i as int],
                            if enabled {
                                PluginStatus::Enabled
                            } else {
                                PluginStatus::Disabled
                            },
                        ),
                    ));
                    assert forall|k: int|
                        0 <= k < 5 implies slot_kind(#[trigger] self.plugins_model()[k])
                        == registry_layout()[k] by {
                        assert(wf_registry(pre_model));
                        if k == i {
                        } else {
                            assert(self.plugins_model()[k] == pre_model[k]);
                        }
                    }
                }
                return;
            }
            i = i + 1;
        }
        proof {
            lemma_find_kind_missing(self.plugins_model(), kind);
        }
    }

    /// Publishes one envelope: appends it to the queue and, unless a drain
    /// loop is already running, drains the queue, delivering each envelope
    /// in publish order to every plugin enabled at that moment, in
    /// registration order; envelopes published by handlers join the same
    /// queue and are delivered by the same loop, never by a nested one.
    /// After the drain, the host is signalled if any handler asked for it.
    pub fn publish_message<M: ICommand>(&mut self, sender: &str, message: &M)
        requires
            old(self).inv(),
        ensures
            final(self).inv(),
            enabled_flags(final(self).plugins_model()) == enabled_flags(
                old(self).plugins_model(),
            ),
            ({
                let env = SpecEnvelope {
                    sender: sender@,
                    action: message.spec_action(),
                    payload: message.spec_args(),
                };
                &&& (old(self).busy() ==> {
                    &&& final(self).busy()
                    &&& final(self).plugins_model() == old(self).plugins_model()
                    &&& final(self).published() == old(self).published().push(env)
                    &&& final(self).delivered() == old(self).delivered()
                    &&& final(self).trace() == old(self).trace()
                })
                &&& (!old(self).busy() ==> {
                    &&& !final(self).busy()
                    &&& final(self).bus_state().queue_model().len() == 0
                    &&& old(self).published().push(env).is_prefix_of(final(self).published())
                    &&& envs_of(final(self).delivered()) == final(self).published()
                    &&& final(self).delivered().len() > old(self).delivered().len()
                    &&& final(self).delivered()[old(self).delivered().len() as int].env == env
                    &&& final(self).delivered()[old(self).delivered().len() as int].enabled
                        == enabled_flags(old(self).plugins_model())
                })
            }),
    {
        let env = Envelope {
            sender: sender.to_owned(),
            action: message.action(),
            payload: message.args(),
        };
        let ghost e = env@;
        if self.bus.is_busy() {
            self.bus.push_envelope(env);
            return;
        }
        self.bus.begin_drain();
        self.bus.push_envelope(env);
        proof {
            assert(old(self).published().push(e).is_prefix_of(self.published()));
        }
        self.drain_queue();
        proof {
            assert(envs_of(self.delivered()) =~= self.published().take(
                self.delivered().len() as int,
            ));
            assert(envs_of(self.delivered()) =~= self.published());
            assert(self.published()[old(self).published().len() as int] == e);
        }
        self.bus.end_drain();
        if self.bus.take_notify() {
            self.host.notify();
        }
    }

    /// Delivers queued envelopes until the queue is empty.  Each envelope
    /// goes to every plugin enabled at the moment its delivery begins, in
    /// registration order; handlers may enqueue more envelopes, which are
    /// delivered by this same loop in the order they were published.
    /// Plugin lifecycles never change during a drain, and the drain
    /// terminates because handlers only publish envelopes of smaller rank.
    fn drain_queue(&mut self)
        requires
            old(self).inv(),
            old(self).busy(),
        ensures
            final(self).inv(),
            final(self).busy(),
            final(self).bus_state().queue_model().len() == 0,
            enabled_flags(final(self).plugins_model()) == enabled_flags(
                old(self).plugins_model(),
            ),
            old(self).published().is_prefix_of(final(self).published()),
            old(self).delivered().is_prefix_of(final(self).delivered()),
            forall|j: int|
                old(self).delivered().len() <= j < final(self).delivered().len()
                    ==> (#[trigger] final(self).delivered()[j]).enabled == enabled_flags(
                    old(self).plugins_model(),
                ),
    {
        loop
            invariant
                self.inv(),
                self.busy(),
                enabled_flags(self.plugins_model()) == enabled_flags(old(self).plugins_model()),
                old(self).published().is_prefix_of(self.published()),
                old(self).delivered().is_prefix_of(self.delivered()),
                forall|j: int|
                    old(self).delivered().len() <= j < self.delivered().len()
                        ==> (#[trigger] self.delivered()[j]).enabled == enabled_flags(
                        old(self).plugins_model(),
                    ),
            decreases queue_measure(self.bus_state().queue_model()),
        {
            proof {
                lemma_queue_measure_nonneg(self.bus_state().queue_model());
            }
            let ghost start_queue = self.bus_state().queue_model();
            let ghost prior_delivered = self.bus_state().delivered();
            let ghost prior_trace = self.bus_state().trace();
            let ghost enabled = enabled_flags(self.plugins_model());
            let env = match self.bus.begin_envelope(Ghost(enabled)) {
                Option::Some(env) => env,
                Option::None => {
                    return;
                },
            };
            let ghost rec = DeliveredRec { env: env@, enabled };
            let ghost r = env_rank(env@);
            let ghost w = env_weight(env@);
            let ghost wsub: int = if r == 3 {
                256
            } else if r == 2 {
                16
            } else if r == 1 {
                1
            } else {
                0
            };
            let ghost m0 = queue_measure(self.bus_state().queue_model());
            proof {
                assert(start_queue =~= seq![env@] + self.bus_state().queue_model());
                lemma_queue_measure_concat(seq![env@], self.bus_state().queue_model());
                assert(queue_measure(seq![env@]) == w) by {
                    assert(seq![env@].drop_first() =~= Seq::<SpecEnvelope>::empty());
                }
                assert(queue_measure(start_queue) == w + m0);
                lemma_queue_measure_nonneg(self.bus_state().queue_model());
            }
            let ghost start_delivered = self.bus_state().delivered();
            let ghost start_trace = self.bus_state().trace();
            let ghost start_published = self.published();
            let ppath = self.project_path();
            let n = self.plugins.len();
            let mut i: usize = 0;
            while i < n
                invariant
                    n == 5,
                    self.plugins@.len() == 5,
                    i <= n,
                    self.bus_state().inv(),
                    self.bus_state().busy(),
                    wf_registry(self.plugins_model()),
                    enabled_flags(self.plugins_model()) == enabled,
                    enabled.len() == 5,
                    self.bus_state().delivered() == start_delivered,
                    self.bus_state().trace() == start_trace + block_upto(
                        rec.env,
                        enabled,
                        i as int,
                    ),
                    start_published.is_prefix_of(self.published()),
                    rec == (DeliveredRec { env: env@, enabled }),
                    r == env_rank(rec.env),
                    wsub == (if r == 3 {
                        256int
                    } else if r == 2 {
                        16int
                    } else if r == 1 {
                        1int
                    } else {
                        0int
                    }),
                    wsub >= 0,
                    queue_measure(self.bus_state().queue_model()) <= m0 + 2 * (i as int) * wsub,
                decreases n - i,
            {
                let deliver = {
                    let slot = &self.plugins[i];
                    slot.status()
                };
                if deliver == PluginStatus::Enabled {
                    let args = env.payload.duplicate();
                    let sender_s: &str = env.sender.as_str();
                    let action_s: &str = env.action.as_str();
                    let ghost pre_published = self.published();
                    let ghost pre_queue = self.bus_state().queue_model();
                    let ghost pre_slot = self.plugins_model()[i as int];
                    let ghost pre_vec = self.plugins@;
                    let ghost pre_model = self.plugins_model();
                    proof {
                        assert(sender_s@ == rec.env.sender);
                        assert(action_s@ == rec.env.action);
                        assert(args@ == rec.env.payload);
                        assert(pre_slot == pre_vec[i as int]@);
                    }
                    let p = vstd::std_specs::vec::vec_index_mut(&mut self.plugins, i);
                    p.handle_message(&mut self.bus, &ppath, sender_s, action_s, args);
                    self.bus.note_delivery(
                        Ghost(DeliveryRec { env: rec.env, plugin: i as int }),
                    );
                    proof {
                        let st = slot_step(
                            pre_slot,
                            opt_text_view(ppath),
                            rec.env.sender,
                            rec.env.action,
                            rec.env.payload,
                        );
                        lemma_slot_step_publishes_rank(
                            pre_slot,
                            opt_text_view(ppath),
                            rec.env.sender,
                            rec.env.action,
                            rec.env.payload,
                        );
                        lemma_queue_measure_concat(pre_queue, st.publishes);
                        assert(SpecEnvelope {
                            sender: rec.env.sender,
                            action: rec.env.action,
                            payload: rec.env.payload,
                        } =~= rec.env);
                        assert forall|k: int|
                            0 <= k < st.publishes.len() implies env_weight(
                            #[trigger] st.publishes[k],
                        ) <= wsub by {
                            assert(env_rank(st.publishes[k]) < env_rank(
                                SpecEnvelope {
                                    sender: rec.env.sender,
                                    action: rec.env.action,
                                    payload: rec.env.payload,
                                },
                            ));
                            assert(env_rank(st.publishes[k]) < r);
                            assert(r == 0 || r == 1 || r == 2 || r == 3);
                            let pk = env_rank(st.publishes[k]);
                            assert(pk == 0 || pk == 1 || pk == 2 || pk == 3);
                            assert(env_weight(st.publishes[k]) <= wsub);
                        }
                        lemma_measure_bounded2(st.publishes, wsub);
                        assert(self.bus_state().queue_model() == pre_queue + st.publishes);
                        assert(queue_measure(self.bus_state().queue_model()) <= m0 + 2 * (
                        i as int) * wsub + 2 * wsub);
                        assert(self.bus_state().trace() =~= start_trace + block_upto(
                            rec.env,
                            enabled,
                            i + 1,
                        ));
                        assert(self.plugins@[i as int]@ == st.state);
                        assert(slot_kind(st.state) == slot_kind(pre_slot));
                        assert(slot_status(st.state) == slot_status(pre_slot));
                        assert forall|k: int|
                            0 <= k < 5 implies slot_kind(#[trigger] self.plugins_model()[k])
                            == registry_layout()[k] by {
                            assert(wf_registry(pre_model));
                            if k == i {
                                assert(self.plugins_model()[k] == st.state);
                                assert(pre_slot == pre_model[k]);
                                assert(slot_kind(pre_model[k]) == registry_layout()[k]);
                            } else {
                                assert(self.plugins@[k] == pre_vec[k]);
                                assert(self.plugins_model()[k] == pre_model[k]);
                                assert(slot_kind(pre_model[k]) == registry_layout()[k]);
                            }
                        }
                        assert forall|k: int|
                            0 <= k < 5 implies (slot_status(#[trigger] self.plugins_model()[k])
                            == PluginStatus::Enabled) == enabled[k] by {
                            assert(enabled_flags(pre_model) == enabled);
                            assert(enabled_flags(pre_model)[k] == (slot_status(pre_model[k])
                                == PluginStatus::Enabled));
                            if k == i {
                                assert(self.plugins_model()[k] == st.state);
                                assert(pre_slot == pre_model[k]);
                            } else {
                                assert(self.plugins@[k] == pre_vec[k]);
                                assert(self.plugins_model()[k] == pre_model[k]);
                            }
                        }
                        assert(enabled_flags(self.plugins_model()) =~= enabled);
                        assert(start_published.is_prefix_of(self.published())) by {
                            assert(pre_published.take(start_published.len() as int)
                                =~= self.published().take(start_published.len() as int));
                        }
                    }
                } else {
                    proof {
                        assert(self.bus_state().trace() =~= start_trace + block_upto(
                            rec.env,
                            enabled,
                            i + 1,
                        ));
                    }
                }
                i = i + 1;
            }
            proof {
                assert(start_delivered =~= prior_delivered.push(rec));
                lemma_trace_of_push(prior_delivered, rec);
                assert(prior_delivered.push(rec).drop_last() =~= prior_delivered);
                assert(trace_of(prior_delivered) == prior_trace);
                assert(self.bus_state().trace() == trace_of(self.bus_state().delivered()));
                assert(old(self).delivered().is_prefix_of(self.delivered())) by {
                    assert(old(self).delivered().take(old(self).delivered().len() as int)
                        =~= self.delivered().take(old(self).delivered().len() as int));
                }
                assert(old(self).published().is_prefix_of(self.published())) by {
                    assert(old(self).published().take(old(self).published().len() as int)
                        =~= self.published().take(old(self).published().len() as int));
                }
                assert(r == 0 || r == 1 || r == 2 || r == 3);
                assert(queue_measure(self.bus_state().queue_model()) <= m0 + 10 * wsub);
                assert(m0 + 10 * wsub < queue_measure(start_queue));
                lemma_queue_measure_nonneg(self.bus_state().queue_model());
            }
        }
    }
}

/// A sequence of at most two envelopes whose weights are each at most `c`
/// weighs at most `2 * c`.
proof fn lemma_measure_bounded2(p: Seq<SpecEnvelope>, c: int)
    requires
        p.len() <= 2,
        c >= 0,
        forall|k: int| 0 <= k < p.len() ==> env_weight(#[trigger] p[k]) <= c,
    ensures
        queue_measure(p) <= 2 * c,
{
    if p.len() == 0 {
    } else if p.len() == 1 {
        assert(p.drop_first().len() == 0);
        assert(queue_measure(p.drop_first()) == 0);
        assert(queue_measure(p) == env_weight(p[0]));
    } else {
        assert(p.drop_first()[0] == p[1]);
        assert(p.drop_first().drop_first().len() == 0);
        assert(queue_measure(p.drop_first().drop_first()) == 0);
        assert(queue_measure(p.drop_first()) == env_weight(p[1]));
        assert(queue_measure(p) == env_weight(p[0]) + env_weight(p[1]));
    }
}

} // verus!
