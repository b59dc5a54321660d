//! The log collector: gathers log lines published by other plugins or by
//! the host, and clears them on request.

use vstd::prelude::*;

use crate::commands::CoreError;
use crate::commands::ICommand;
use crate::commands::IEncode;
use crate::dispatch::bus_effect;
use crate::dispatch::lemma_bus_unchanged;
use crate::dispatch::quiet_step;
use crate::dispatch::Dispatcher;
use crate::dispatch::StepV;
use crate::plugin::IPluginStateStorage;
use crate::plugin::PluginInfo;
use crate::plugin::PluginStatus;
use crate::value::fields_view;
use crate::value::lemma_fields_view;
use crate::value::lemma_seq_view;
use crate::value::spec_get;
use crate::value::str_eq;
use crate::value::SpecValue;
use crate::value::StructValue;

verus! {

/// Collects `(sender, category, content)` log lines.
#[derive(Debug)]
pub struct Logger {
    /// Sender, category and content of each collected log line.
    pub logs: Vec<(String, String, String)>,
    pub status: PluginStatus,
}

/// The mathematical model of a `Logger`.
#[verifier::ext_equal]
pub ghost struct LoggerV {
    pub logs: Seq<(Seq<char>, Seq<char>, Seq<char>)>,
    pub status: PluginStatus,
}

/// The models of collected log lines, in order.
pub open spec fn logs_view(logs: Seq<(String, String, String)>) -> Seq<
    (Seq<char>, Seq<char>, Seq<char>),
> {
    Seq::new(logs.len(), |i: int| (logs[i].0@, logs[i].1@, logs[i].2@))
}

impl View for Logger {
    type V = LoggerV;

    open spec fn view(&self) -> LoggerV {
        LoggerV { logs: logs_view(self.logs@), status: self.status }
    }
}

/// The command understood by the logger.
#[derive(Debug)]
pub enum LogCommand {
    /// Append one log line under a category.
    Generate { category: String, content: String },
    /// Discard every collected log line.
    Clear,
}

/// The mathematical model of a `LogCommand`.
#[verifier::ext_equal]
pub ghost enum LogCommandV {
    Generate { category: Seq<char>, content: Seq<char> },
    Clear,
}

impl View for LogCommand {
    type V = LogCommandV;

    open spec fn view(&self) -> LogCommandV {
        match self {
            LogCommand::Generate { category, content } => LogCommandV::Generate {
                category: category@,
                content: content@,
            },
            LogCommand::Clear => LogCommandV::Clear,
        }
    }
}

/// Severity labels used by log producers; purely descriptive.
#[derive(Debug, Clone, Copy, PartialEq, Eq, Structural)]
pub enum LogType {
    Error,
    Warning,
    Into,
    Trace,
}

/// The action under which log commands travel.
pub open spec fn log_action() -> Seq<char> {
    "designer.logger.log"@
}

/// Encoding of a log command as a structured value.
pub open spec fn spec_enc_log_command(c: LogCommandV) -> SpecValue {
    match c {
        LogCommandV::Generate { category, content } => SpecValue::Object(
            seq![
                (
                    "Generate"@,
                    SpecValue::Object(
                        seq![
                            ("category"@, SpecValue::Text(category)),
                            ("content"@, SpecValue::Text(content)),
                        ],
                    ),
                ),
            ],
        ),
        LogCommandV::Clear => SpecValue::Text("Clear"@),
    }
}

/// Decoding of a log command from a structured value.
pub open spec fn spec_dec_log_command(v: SpecValue) -> Option<LogCommandV> {
    if v == SpecValue::Text("Clear"@) {
        Option::Some(LogCommandV::Clear)
    } else {
        match spec_get(v, "Generate"@) {
            Option::Some(inner) => match (
                spec_get(inner, "category"@),
                spec_get(inner, "content"@),
            ) {
                (
                    Option::Some(SpecValue::Text(category)),
                    Option::Some(SpecValue::Text(content)),
                ) => Option::Some(LogCommandV::Generate { category, content }),
                _ => Option::None,
            },
            Option::None => Option::None,
        }
    }
}

impl IEncode for LogCommand {
    open spec fn spec_enc(&self) -> SpecValue {
        spec_enc_log_command(self@)
    }

    fn encode(&self) -> (r: StructValue) {
        match self {
            LogCommand::Generate { category, content } => {
                let mut inner_fields: Vec<(String, StructValue)> = Vec::new();
                inner_fields.push(("category".to_owned(), StructValue::Text(category.clone())));
                inner_fields.push(("content".to_owned(), StructValue::Text(content.clone())));
                let ghost gif = inner_fields@;
                let inner = StructValue::Object(inner_fields);
                let mut outer: Vec<(String, StructValue)> = Vec::new();
                outer.push(("Generate".to_owned(), inner));
                let ghost gof = outer@;
                let r = StructValue::Object(outer);
                proof {
                    lemma_fields_view(gif);
                    lemma_fields_view(gof);
                    let target = spec_enc_log_command(self@);
                    assert(fields_view(gif) =~= seq![
                        ("category"@, SpecValue::Text(category@)),
                        ("content"@, SpecValue::Text(content@)),
                    ]);
                    assert(fields_view(gof) =~= target->Object_0);
                    assert(r@ == target);
                }
                r
            },
            LogCommand::Clear => StructValue::text("Clear"),
        }
    }
}

impl ICommand for LogCommand {
    open spec fn spec_action(&self) -> Seq<char> {
        log_action()
    }

    open spec fn spec_args(&self) -> SpecValue {
        self.spec_enc()
    }

    fn action(&self) -> (r: String) {
        "designer.logger.log".to_owned()
    }

    fn args(&self) -> (r: StructValue) {
        self.encode()
    }
}

/// Decodes a log command; the result models `spec_dec_log_command`.
pub fn decode_log_command(v: &StructValue) -> (r: Option<LogCommand>)
    ensures
        match r {
            Option::Some(c) => spec_dec_log_command(v@) == Option::Some(c@),
            Option::None => spec_dec_log_command(v@) is None,
        },
{
    match v.as_text() {
        Option::Some(s) => {
            if str_eq(s.as_str(), "Clear") {
                Option::Some(LogCommand::Clear)
            } else {
                Option::None
            }
        },
        Option::None => {
            let inner = match v.get("Generate") {
                Option::Some(i) => i,
                Option::None => {
                    return Option::None;
                },
            };
            let category = match inner.get("category") {
                Option::Some(c) => match c.as_text() {
                    Option::Some(s) => s,
                    Option::None => {
                        return Option::None;
                    },
                },
                Option::None => {
                    return Option::None;
                },
            };
            let content = match inner.get("content") {
                Option::Some(c) => match c.as_text() {
                    Option::Some(s) => s,
                    Option::None => {
                        return Option::None;
                    },
                },
                Option::None => {
                    return Option::None;
                },
            };
            Option::Some(
                LogCommand::Generate { category: category.clone(), content: content.clone() },
            )
        },
    }
}

/// Law: decoding an encoded log command restores it.
pub proof fn lemma_log_command_round_trip(c: LogCommandV)
    ensures
        spec_dec_log_command(spec_enc_log_command(c)) == Option::Some(c),
{
    match c {
        LogCommandV::Generate { category, content } => {
            reveal_strlit("category");
            reveal_strlit("content");
            assert("category"@.len() == 8);
            assert("content"@.len() == 7);
            let outer = spec_enc_log_command(c)->Object_0;
            let inner = outer[0].1->Object_0;
            assert(spec_get(spec_enc_log_command(c), "Generate"@) == Option::Some(outer[0].1));
            assert(spec_get(outer[0].1, "category"@) == Option::Some(SpecValue::Text(category)));
            assert(inner.skip(1) =~= seq![("content"@, SpecValue::Text(content))]);
            assert(crate::value::spec_fields_get(inner.skip(1), "content"@) == Option::Some(
                SpecValue::Text(content),
            ));
            assert(spec_get(outer[0].1, "content"@) == Option::Some(SpecValue::Text(content)));
        },
        LogCommandV::Clear => {
        },
    }
}

/// How the logger reacts to one delivered envelope: it appends a line for a
/// well-formed `Generate`, discards everything for `Clear`, and ignores any
/// other action and any malformed payload.
pub open spec fn logger_step(
    m: LoggerV,
    sender: Seq<char>,
    action: Seq<char>,
    args: SpecValue,
) -> StepV<LoggerV> {
    if action != log_action() {
        quiet_step(m)
    } else {
        match spec_dec_log_command(args) {
            Option::Some(LogCommandV::Generate { category, content }) => StepV {
                state: LoggerV {
                    logs: m.logs.push((sender, category, content)),
                    status: m.status,
                },
                publishes: Seq::empty(),
                requests: Seq::empty(),
                notify: true,
            },
            Option::Some(LogCommandV::Clear) => StepV {
                state: LoggerV { logs: Seq::empty(), status: m.status },
                publishes: Seq::empty(),
                requests: Seq::empty(),
                notify: true,
            },
            Option::None => quiet_step(m),
        }
    }
}

impl Logger {
    /// A fresh logger: no lines collected, initially disabled.
    pub fn new() -> (r: Self)
        ensures
            r@ == (LoggerV { logs: Seq::empty(), status: PluginStatus::Disabled }),
    {
        let r = Logger { logs: Vec::new(), status: PluginStatus::Disabled };
        proof {
            assert(r@.logs =~= Seq::<(Seq<char>, Seq<char>, Seq<char>)>::empty());
        }
        r
    }

    /// This plugin's immutable identity.
    pub fn info(&self) -> (r: PluginInfo)
        ensures
            r.uuid@ == "aacd2e16-52b1-40e8-b504-0aceffd5b466"@,
            r.name@ == "Logger (Native plugin)"@,
            r.description@ == "Collect logs from other plugin or extension."@,
            r.version == (0usize, 0usize, 1usize),
            r.author@ == "dream-lab"@,
    {
        PluginInfo {
            uuid: "aacd2e16-52b1-40e8-b504-0aceffd5b466",
            name: "Logger (Native plugin)".to_owned(),
            version: (0, 0, 1),
            author: "dream-lab",
            description: "Collect logs from other plugin or extension.".to_owned(),
        }
    }

    /// The current lifecycle status.
    pub fn status(&self) -> (r: PluginStatus)
        ensures
            r == self.status,
    {
        self.status
    }

    /// One-time setup before the first enable; the logger needs none.
    pub fn initialize(&mut self)
        ensures
            *final(self) == *old(self),
    {
    }

    /// Starts receiving envelopes.  Idempotent: enabling an enabled logger
    /// leaves it enabled and changes nothing else.
    pub fn enable(&mut self)
        ensures
            final(self)@ == (LoggerV { logs: old(self)@.logs, status: PluginStatus::Enabled }),
    {
        self.status = PluginStatus::Enabled;
    }

    /// Stops receiving envelopes but keeps the collected lines.  Idempotent.
    pub fn disable(&mut self)
        ensures
            final(self)@ == (LoggerV { logs: old(self)@.logs, status: PluginStatus::Disabled }),
    {
        self.status = PluginStatus::Disabled;
    }

    /// Handles one delivered envelope, exactly as `logger_step` says.
    pub fn handle_message(
        &mut self,
        bus: &mut Dispatcher,
        project_path: &Option<String>,
        sender: &str,
        action: &str,
        args: StructValue,
    )
        requires
            old(bus).inv(),
            old(bus).busy(),
        ensures
            final(bus).inv(),
            ({
                let st = logger_step(old(self)@, sender@, action@, args@);
                final(self)@ == st.state && bus_effect(
                    *old(bus),
                    *final(bus),
                    st.publishes,
                    st.requests,
                    st.notify,
                )
            }),
    {
        if !str_eq(action, "designer.logger.log") {
            proof {
                lemma_bus_unchanged(*bus);
            }
            return;
        }
        match decode_log_command(&args) {
            Option::Some(LogCommand::Generate { category, content }) => {
                let ghost gcat = category@;
                let ghost gcon = content@;
                self.logs.push((sender.to_owned(), category, content));
                bus.notify_ui();
                proof {
                    let st = logger_step(old(self)@, sender@, action@, args@);
                    assert(self@.logs =~= old(self)@.logs.push((sender@, gcat, gcon)));
                    assert(self@ == st.state);
                }
            },
            Option::Some(LogCommand::Clear) => {
                self.logs.clear();
                bus.notify_ui();
                proof {
                    assert(self@.logs =~= Seq::<(Seq<char>, Seq<char>, Seq<char>)>::empty());
                }
            },
            Option::None => {
                proof {
                    lemma_bus_unchanged(*bus);
                }
                return;
            },
        }
    }

    /// A read-only structured snapshot for diagnostics and the UI.
    pub fn get_state(&self) -> (r: StructValue)
        ensures
            r@ == logger_snapshot(self@),
    {
        let mut lines: Vec<StructValue> = Vec::new();
        let n = self.logs.len();
        let mut i: usize = 0;
        while i < n
            invariant
                n == self.logs@.len(),
                i <= n,
                lines@.len() == i,
                forall|k: int|
                    0 <= k < i ==> #[trigger] lines@[k]@ == SpecValue::List(
                        seq![
                            SpecValue::Text(self.logs@[k].0@),
                            SpecValue::Text(self.logs@[k].1@),
                            SpecValue::Text(self.logs@[k].2@),
                        ],
                    ),
            decreases n - i,
        {
            let mut triple: Vec<StructValue> = Vec::new();
            triple.push(StructValue::Text(self.logs[i].0.clone()));
            triple.push(StructValue::Text(self.logs[i].1.clone()));
            triple.push(StructValue::Text(self.logs[i].2.clone()));
            let ghost gt = triple@;
            let line = StructValue::List(triple);
            proof {
                lemma_seq_view(gt);
                assert(line@->List_0 =~= seq![
                    SpecValue::Text(self.logs@[i as int].0@),
                    SpecValue::Text(self.logs@[i as int].1@),
                    SpecValue::Text(self.logs@[i as int].2@),
                ]);
            }
            lines.push(line);
            i = i + 1;
        }
        let ghost gl = lines@;
        let mut fields: Vec<(String, StructValue)> = Vec::new();
        fields.push(("logs".to_owned(), StructValue::List(lines)));
        let ghost gf = fields@;
        let r = StructValue::Object(fields);
        proof {
            lemma_seq_view(gl);
            lemma_fields_view(gf);
            assert(crate::value::seq_view(gl) =~= spec_enc_logs(self@.logs)->List_0);
            assert(fields_view(gf) =~= logger_snapshot(self@)->Object_0);
            assert(r@ == logger_snapshot(self@));
        }
        r
    }

    /// Persists the snapshot that `get_state` reports.
    pub fn store_state<S: IPluginStateStorage>(&self, storage: &mut S)
        ensures
            final(storage).stored() == logger_snapshot(self@),
    {
        let snapshot = self.get_state();
        storage.store_state(snapshot);
    }

    /// Restores the collected lines from the last persisted snapshot; a
    /// snapshot that does not decode leaves the logger unchanged and reports
    /// the failure instead of aborting.
    pub fn load_state<S: IPluginStateStorage>(&mut self, storage: &mut S) -> (r: Result<
        (),
        CoreError,
    >)
        ensures
            final(storage).stored() == old(storage).stored(),
            match logger_restore(old(storage).stored()) {
                Option::Some(logs) => r is Ok && final(self)@ == (LoggerV {
                    logs,
                    status: old(self)@.status,
                }),
                Option::None => r == Result::<(), CoreError>::Err(
                    CoreError::StateDeserializationFailed,
                ) && *final(self) == *old(self),
            },
    {
        let value = storage.load_state();
        match decode_logger_snapshot(&value) {
            Option::Some(logs) => {
                self.logs = logs;
                Result::Ok(())
            },
            Option::None => Result::Err(CoreError::StateDeserializationFailed),
        }
    }
}

/// Decodes a persisted logger snapshot; the result models `logger_restore`.
pub fn decode_logger_snapshot(v: &StructValue) -> (r: Option<Vec<(String, String, String)>>)
    ensures
        match r {
            Option::Some(logs) => logger_restore(v@) == Option::Some(logs_view(logs@)),
            Option::None => logger_restore(v@) is None,
        },
{
    let lines = match v.get("logs") {
        Option::Some(l) => l,
        Option::None => {
            return Option::None;
        },
    };
    let items = match lines.as_list() {
        Option::Some(items) => items,
        Option::None => {
            return Option::None;
        },
    };
    proof {
        lemma_seq_view(items@);
    }
    let ghost iv = crate::value::seq_view(items@);
    let mut logs: Vec<(String, String, String)> = Vec::new();
    let n = items.len();
    let mut i: usize = 0;
    while i < n
        invariant
            n == items@.len(),
            i <= n,
            logs@.len() == i,
            iv == crate::value::seq_view(items@),
            iv.len() == items@.len(),
            forall|k: int| 0 <= k < items@.len() ==> #[trigger] iv[k] == items@[k]@,
            forall|k: int|
                0 <= k < i ==> spec_dec_log_line(iv[k]) == Option::Some(
                    #[trigger] logs_view(logs@)[k],
                ),
            logger_restore(v@) == logger_restore_of(iv),
        decreases n - i,
    {
        let entry = &items[i];
        let parts = match entry.as_list() {
            Option::Some(p) => p,
            Option::None => {
                proof {
                    assert(spec_dec_log_line(iv[i as int]) is None);
                }
                return Option::None;
            },
        };
        proof {
            lemma_seq_view(parts@);
        }
        if parts.len() != 3 {
            proof {
                assert(spec_dec_log_line(iv[i as int]) is None);
            }
            return Option::None;
        }
        let s0 = match parts[0].as_text() {
            Option::Some(s) => s,
            Option::None => {
                proof {
                    assert(spec_dec_log_line(iv[i as int]) is None);
                }
                return Option::None;
            },
        };
        let s1 = match parts[1].as_text() {
            Option::Some(s) => s,
            Option::None => {
                proof {
                    assert(spec_dec_log_line(iv[i as int]) is None);
                }
                return Option::None;
            },
        };
        let s2 = match parts[2].as_text() {
            Option::Some(s) => s,
            Option::None => {
                proof {
                    assert(spec_dec_log_line(iv[i as int]) is None);
                }
                return Option::None;
            },
        };
        let ghost before = logs@;
        logs.push((s0.clone(), s1.clone(), s2.clone()));
        proof {
            assert(logs_view(logs@) =~= logs_view(before).push((s0@, s1@, s2@)));
            assert(spec_dec_log_line(iv[i as int]) == Option::Some((s0@, s1@, s2@)));
        }
        i = i + 1;
    }
    proof {
        lemma_logs_restore(iv, logs_view(logs@));
    }
    Option::Some(logs)
}

/// Encoding of the collected log lines as a structured value.
pub open spec fn spec_enc_logs(logs: Seq<(Seq<char>, Seq<char>, Seq<char>)>) -> SpecValue {
    SpecValue::List(
        Seq::new(
            logs.len(),
            |i: int|
                SpecValue::List(
                    seq![
                        SpecValue::Text(logs[i].0),
                        SpecValue::Text(logs[i].1),
                        SpecValue::Text(logs[i].2),
                    ],
                ),
        ),
    )
}

/// The snapshot `get_state` reports: the collected lines under `"logs"`.
pub open spec fn logger_snapshot(m: LoggerV) -> SpecValue {
    SpecValue::Object(seq![("logs"@, spec_enc_logs(m.logs))])
}

/// Decoding of one persisted log line.
pub open spec fn spec_dec_log_line(v: SpecValue) -> Option<(Seq<char>, Seq<char>, Seq<char>)> {
    match v {
        SpecValue::List(parts) => {
            if parts.len() == 3 {
                match (parts[0], parts[1], parts[2]) {
                    (SpecValue::Text(s0), SpecValue::Text(s1), SpecValue::Text(s2)) => Option::Some(
                        (s0, s1, s2),
                    ),
                    _ => Option::None,
                }
            } else {
                Option::None
            }
        },
        _ => Option::None,
    }
}

/// The collected lines decoded from the elements of the persisted list, if
/// every element decodes.
pub open spec fn logger_restore_of(items: Seq<SpecValue>) -> Option<
    Seq<(Seq<char>, Seq<char>, Seq<char>)>,
> {
    if forall|k: int| 0 <= k < items.len() ==> (#[trigger] spec_dec_log_line(items[k])) is Some {
        Option::Some(Seq::new(items.len(), |k: int| spec_dec_log_line(items[k])->Some_0))
    } else {
        Option::None
    }
}

/// Decoding of a persisted logger snapshot: the collected lines, if every
/// line decodes.
pub open spec fn logger_restore(v: SpecValue) -> Option<Seq<(Seq<char>, Seq<char>, Seq<char>)>> {
    match spec_get(v, "logs"@) {
        Option::Some(SpecValue::List(items)) => logger_restore_of(items),
        _ => Option::None,
    }
}

/// If every element of `items` decodes to the matching line of `logs`, then
/// the decoded snapshot is exactly `logs`.
proof fn lemma_logs_restore(
    items: Seq<SpecValue>,
    logs: Seq<(Seq<char>, Seq<char>, Seq<char>)>,
)
    requires
        items.len() == logs.len(),
        forall|k: int|
            0 <= k < items.len() ==> spec_dec_log_line(#[trigger] items[k]) == Option::Some(
                logs[k],
            ),
    ensures
        logger_restore_of(items) == Option::Some(logs),
{
    assert(logger_restore_of(items)->Some_0 =~= logs);
}

/// Law: restoring the persisted snapshot of any logger yields exactly its
/// collected lines, so a store followed by a load leaves `get_state`
/// unchanged.
pub proof fn lemma_logger_state_round_trip(m: LoggerV)
    ensures
        logger_restore(logger_snapshot(m)) == Option::Some(m.logs),
{
    let v = logger_snapshot(m);
    assert(spec_get(v, "logs"@) == Option::Some(spec_enc_logs(m.logs)));
    let items = spec_enc_logs(m.logs)->List_0;
    assert forall|k: int| 0 <= k < items.len() implies (#[trigger] spec_dec_log_line(items[k]))
        == Option::Some(m.logs[k]) by {
        assert(items[k] == SpecValue::List(
            seq![
                SpecValue::Text(m.logs[k].0),
                SpecValue::Text(m.logs[k].1),
                SpecValue::Text(m.logs[k].2),
            ],
        ));
    }
    assert(logger_restore(v)->Some_0 =~= m.logs);
}

} // verus!
