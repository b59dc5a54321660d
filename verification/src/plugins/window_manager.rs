//! The window manager: keeps the persisted window dock layout for the open
//! project.  Reading and writing the settings file is the host's work; this
//! plugin decides what to ask for, keeps the restored layout, and counts
//! layout changes.

use vstd::prelude::*;

use crate::commands::CoreError;
use crate::commands::ICommand;
use crate::commands::IEncode;
use crate::commands::SpecEnvelope;
use crate::counter::Counter;
use crate::dispatch::bus_effect;
use crate::dispatch::lemma_bus_unchanged;
use crate::dispatch::quiet_step;
use crate::dispatch::Dispatcher;
use crate::dispatch::HostRequest;
use crate::dispatch::HostRequestV;
use crate::dispatch::StepV;
use crate::plugin::decode_status;
use crate::plugin::encode_status;
use crate::plugin::spec_dec_status;
use crate::plugin::spec_enc_status;
use crate::plugin::IPluginStateStorage;
use crate::plugin::PluginInfo;
use crate::plugin::PluginStatus;
use crate::plugins::logger::spec_enc_log_command;
use crate::plugins::logger::LogCommand;
use crate::plugins::logger::LogCommandV;
use crate::plugins::project_manager::pm_event_action;
use crate::plugins::project_manager::spec_dec_pm_event;
use crate::plugins::project_manager::decode_pm_event;
use crate::plugins::project_manager::ProjectManagerEvent;
use crate::plugins::project_manager::ProjectManagerEventV;
use crate::value::fields_view;
use crate::value::lemma_fields_get_found;
use crate::value::lemma_fields_get_missing;
use crate::value::lemma_fields_view;
use crate::value::lemma_seq_view;
use crate::value::spec_get;
use crate::value::str_eq;
use crate::value::SpecValue;
use crate::value::StructValue;

verus! {

/// The windows the editor can show.
#[derive(Debug, Clone, Copy, PartialEq, Eq, Structural)]
pub enum EditorWindowId {
    WelcomePage,
    FileManagerWindow,
    LogViewWindow,
    InspectorWindow,
    LibraryWindow,
    ProjectSettingsWindow,
    EditorSettingsWindow,
    ExtensionsWindow,
    NodeEditorWindow,
    CodeEditorWindow,
}

/// The name under which a window id travels.
pub open spec fn spec_enc_window_id(id: EditorWindowId) -> Seq<char> {
    match id {
        EditorWindowId::WelcomePage => "WelcomePage"@,
        EditorWindowId::FileManagerWindow => "FileManagerWindow"@,
        EditorWindowId::LogViewWindow => "LogViewWindow"@,
        EditorWindowId::InspectorWindow => "InspectorWindow"@,
        EditorWindowId::LibraryWindow => "LibraryWindow"@,
        EditorWindowId::ProjectSettingsWindow => "ProjectSettingsWindow"@,
        EditorWindowId::EditorSettingsWindow => "EditorSettingsWindow"@,
        EditorWindowId::ExtensionsWindow => "ExtensionsWindow"@,
        EditorWindowId::NodeEditorWindow => "NodeEditorWindow"@,
        EditorWindowId::CodeEditorWindow => "CodeEditorWindow"@,
    }
}

/// The window id named by `s`, if any.
pub open spec fn spec_dec_window_id(s: Seq<char>) -> Option<EditorWindowId> {
    if s == "WelcomePage"@ {
        Option::Some(EditorWindowId::WelcomePage)
    } else if s == "FileManagerWindow"@ {
        Option::Some(EditorWindowId::FileManagerWindow)
    } else if s == "LogViewWindow"@ {
        Option::Some(EditorWindowId::LogViewWindow)
    } else if s == "InspectorWindow"@ {
        Option::Some(EditorWindowId::InspectorWindow)
    } else if s == "LibraryWindow"@ {
        Option::Some(EditorWindowId::LibraryWindow)
    } else if s == "ProjectSettingsWindow"@ {
        Option::Some(EditorWindowId::ProjectSettingsWindow)
    } else if s == "EditorSettingsWindow"@ {
        Option::Some(EditorWindowId::EditorSettingsWindow)
    } else if s == "ExtensionsWindow"@ {
        Option::Some(EditorWindowId::ExtensionsWindow)
    } else if s == "NodeEditorWindow"@ {
        Option::Some(EditorWindowId::NodeEditorWindow)
    } else if s == "CodeEditorWindow"@ {
        Option::Some(EditorWindowId::CodeEditorWindow)
    } else {
        Option::None
    }
}

/// Encodes a window id as its name.
pub fn encode_window_id(id: EditorWindowId) -> (r: String)
    ensures
        r@ == spec_enc_window_id(id),
{
    match id {
        EditorWindowId::WelcomePage => "WelcomePage".to_owned(),
        EditorWindowId::FileManagerWindow => "FileManagerWindow".to_owned(),
        EditorWindowId::LogViewWindow => "LogViewWindow".to_owned(),
        EditorWindowId::InspectorWindow => "InspectorWindow".to_owned(),
        EditorWindowId::LibraryWindow => "LibraryWindow".to_owned(),
        EditorWindowId::ProjectSettingsWindow => "ProjectSettingsWindow".to_owned(),
        EditorWindowId::EditorSettingsWindow => "EditorSettingsWindow".to_owned(),
        EditorWindowId::ExtensionsWindow => "ExtensionsWindow".to_owned(),
        EditorWindowId::NodeEditorWindow => "NodeEditorWindow".to_owned(),
        EditorWindowId::CodeEditorWindow => "CodeEditorWindow".to_owned(),
    }
}

/// Decodes a window id from its name; the result models
/// `spec_dec_window_id`.
pub fn decode_window_id(s: &str) -> (r: Option<EditorWindowId>)
    ensures
        r == spec_dec_window_id(s@),
{
    if str_eq(s, "WelcomePage") {
        Option::Some(EditorWindowId::WelcomePage)
    } else if str_eq(s, "FileManagerWindow") {
        Option::Some(EditorWindowId::FileManagerWindow)
    } else if str_eq(s, "LogViewWindow") {
        Option::Some(EditorWindowId::LogViewWindow)
    } else if str_eq(s, "InspectorWindow") {
        Option::Some(EditorWindowId::InspectorWindow)
    } else if str_eq(s, "LibraryWindow") {
        Option::Some(EditorWindowId::LibraryWindow)
    } else if str_eq(s, "ProjectSettingsWindow") {
        Option::Some(EditorWindowId::ProjectSettingsWindow)
    } else if str_eq(s, "EditorSettingsWindow") {
        Option::Some(EditorWindowId::EditorSettingsWindow)
    } else if str_eq(s, "ExtensionsWindow") {
        Option::Some(EditorWindowId::ExtensionsWindow)
    } else if str_eq(s, "NodeEditorWindow") {
        Option::Some(EditorWindowId::NodeEditorWindow)
    } else if str_eq(s, "CodeEditorWindow") {
        Option::Some(EditorWindowId::CodeEditorWindow)
    } else {
        Option::None
    }
}

/// Law: decoding an encoded window id restores it.
pub proof fn lemma_window_id_round_trip(id: EditorWindowId)
    ensures
        spec_dec_window_id(spec_enc_window_id(id)) == Option::Some(id),
{
    reveal_strlit("WelcomePage");
    reveal_strlit("FileManagerWindow");
    reveal_strlit("LogViewWindow");
    reveal_strlit("InspectorWindow");
    reveal_strlit("LibraryWindow");
    reveal_strlit("ProjectSettingsWindow");
    reveal_strlit("EditorSettingsWindow");
    reveal_strlit("ExtensionsWindow");
    reveal_strlit("NodeEditorWindow");
    reveal_strlit("CodeEditorWindow");
    assert("WelcomePage"@.len() == 11);
    assert("FileManagerWindow"@.len() == 17);
    assert("LogViewWindow"@.len() == 13);
    assert("InspectorWindow"@.len() == 15);
    assert("LibraryWindow"@.len() == 13);
    assert("ProjectSettingsWindow"@.len() == 21);
    assert("EditorSettingsWindow"@.len() == 20);
    assert("ExtensionsWindow"@.len() == 16);
    assert("NodeEditorWindow"@.len() == 16);
    assert("CodeEditorWindow"@.len() == 16);
    assert("LogViewWindow"@[1] == 'o');
    assert("LibraryWindow"@[1] == 'i');
    assert("ExtensionsWindow"@[0] == 'E');
    assert("NodeEditorWindow"@[0] == 'N');
    assert("CodeEditorWindow"@[0] == 'C');
    match id {
        EditorWindowId::WelcomePage => {
        },
        EditorWindowId::FileManagerWindow => {
        },
        EditorWindowId::LogViewWindow => {
        },
        EditorWindowId::InspectorWindow => {
        },
        EditorWindowId::LibraryWindow => {
        },
        EditorWindowId::ProjectSettingsWindow => {
        },
        EditorWindowId::EditorSettingsWindow => {
        },
        EditorWindowId::ExtensionsWindow => {
        },
        EditorWindowId::NodeEditorWindow => {
        },
        EditorWindowId::CodeEditorWindow => {
        },
    }
}

/// The commands understood by the window manager.
#[derive(Debug)]
pub enum WindowManagerCommand {
    OpenWindow(EditorWindowId),
    CloseWindow(EditorWindowId),
    /// Persist this dock layout for the open project.
    SaveDockState(StructValue),
    /// Restore the dock layout persisted for the open project.
    LoadDockState,
}

/// The mathematical model of a `WindowManagerCommand`.
#[verifier::ext_equal]
pub ghost enum WindowManagerCommandV {
    OpenWindow(EditorWindowId),
    CloseWindow(EditorWindowId),
    SaveDockState(SpecValue),
    LoadDockState,
}

impl View for WindowManagerCommand {
    type V = WindowManagerCommandV;

    open spec fn view(&self) -> WindowManagerCommandV {
        match self {
            WindowManagerCommand::OpenWindow(id) => WindowManagerCommandV::OpenWindow(*id),
            WindowManagerCommand::CloseWindow(id) => WindowManagerCommandV::CloseWindow(*id),
            WindowManagerCommand::SaveDockState(v) => WindowManagerCommandV::SaveDockState(v@),
            WindowManagerCommand::LoadDockState => WindowManagerCommandV::LoadDockState,
        }
    }
}

/// The action under which window manager commands travel.
pub open spec fn wm_action() -> Seq<char> {
    "designer.window_manager.management"@
}

/// The action under which window manager events travel.
pub open spec fn wm_event_action() -> Seq<char> {
    "designer.window_manager.event"@
}

/// The action under which the host reports the outcome of a dock settings
/// read back to the window manager.
pub open spec fn wm_io_action() -> Seq<char> {
    "designer.window_manager.io"@
}

/// The sender name the window manager publishes under.
pub open spec fn wm_sender() -> Seq<char> {
    "WindowManager"@
}

/// Encoding of a window manager command.
pub open spec fn spec_enc_wm_command(c: WindowManagerCommandV) -> SpecValue {
    match c {
        WindowManagerCommandV::OpenWindow(id) => SpecValue::Object(
            seq![("OpenWindow"@, SpecValue::Text(spec_enc_window_id(id)))],
        ),
        WindowManagerCommandV::CloseWindow(id) => SpecValue::Object(
            seq![("CloseWindow"@, SpecValue::Text(spec_enc_window_id(id)))],
        ),
        WindowManagerCommandV::SaveDockState(v) => SpecValue::Object(
            seq![("SaveDockState"@, v)],
        ),
        WindowManagerCommandV::LoadDockState => SpecValue::Text("LoadDockState"@),
    }
}

/// Decoding of a window manager command.
pub open spec fn spec_dec_wm_command(v: SpecValue) -> Option<WindowManagerCommandV> {
    if v == SpecValue::Text("LoadDockState"@) {
        Option::Some(WindowManagerCommandV::LoadDockState)
    } else {
        match spec_get(v, "OpenWindow"@) {
            Option::Some(SpecValue::Text(name)) => match spec_dec_window_id(name) {
                Option::Some(id) => Option::Some(WindowManagerCommandV::OpenWindow(id)),
                Option::None => Option::None,
            },
            Option::Some(_) => Option::None,
            Option::None => match spec_get(v, "CloseWindow"@) {
                Option::Some(SpecValue::Text(name)) => match spec_dec_window_id(name) {
                    Option::Some(id) => Option::Some(WindowManagerCommandV::CloseWindow(id)),
                    Option::None => Option::None,
                },
                Option::Some(_) => Option::None,
                Option::None => match spec_get(v, "SaveDockState"@) {
                    Option::Some(state) => Option::Some(
                        WindowManagerCommandV::SaveDockState(state),
                    ),
                    Option::None => Option::None,
                },
            },
        }
    }
}

impl IEncode for WindowManagerCommand {
    open spec fn spec_enc(&self) -> SpecValue {
        spec_enc_wm_command(self@)
    }

    fn encode(&self) -> (r: StructValue) {
        match self {
            WindowManagerCommand::OpenWindow(id) => {
                let mut outer: Vec<(String, StructValue)> = Vec::new();
                outer.push(("OpenWindow".to_owned(), StructValue::Text(encode_window_id(*id))));
                let ghost go = outer@;
                let r = StructValue::Object(outer);
                proof {
                    lemma_fields_view(go);
                    assert(fields_view(go) =~= spec_enc_wm_command(self@)->Object_0);
                    assert(r@ == spec_enc_wm_command(self@));
                }
                r
            },
            WindowManagerCommand::CloseWindow(id) => {
                let mut outer: Vec<(String, StructValue)> = Vec::new();
                outer.push(("CloseWindow".to_owned(), StructValue::Text(encode_window_id(*id))));
                let ghost go = outer@;
                let r = StructValue::Object(outer);
                proof {
                    lemma_fields_view(go);
                    assert(fields_view(go) =~= spec_enc_wm_command(self@)->Object_0);
                    assert(r@ == spec_enc_wm_command(self@));
                }
                r
            },
            WindowManagerCommand::SaveDockState(v) => {
                let mut outer: Vec<(String, StructValue)> = Vec::new();
                outer.push(("SaveDockState".to_owned(), v.duplicate()));
                let ghost go = outer@;
                let r = StructValue::Object(outer);
                proof {
                    lemma_fields_view(go);
                    assert(fields_view(go) =~= spec_enc_wm_command(self@)->Object_0);
                    assert(r@ == spec_enc_wm_command(self@));
                }
                r
            },
            WindowManagerCommand::LoadDockState => StructValue::text("LoadDockState"),
        }
    }
}

impl ICommand for WindowManagerCommand {
    open spec fn spec_action(&self) -> Seq<char> {
        wm_action()
    }

    open spec fn spec_args(&self) -> SpecValue {
        self.spec_enc()
    }

    fn action(&self) -> (r: String) {
        "designer.window_manager.management".to_owned()
    }

    fn args(&self) -> (r: StructValue) {
        self.encode()
    }
}

/// Decodes a window manager command; the result models
/// `spec_dec_wm_command`.
pub fn decode_wm_command(v: &StructValue) -> (r: Option<WindowManagerCommand>)
    ensures
        match r {
            Option::Some(c) => spec_dec_wm_command(v@) == Option::Some(c@),
            Option::None => spec_dec_wm_command(v@) is None,
        },
{
    match v.as_text() {
        Option::Some(s) => {
            if str_eq(s.as_str(), "LoadDockState") {
                Option::Some(WindowManagerCommand::LoadDockState)
            } else {
                Option::None
            }
        },
        Option::None => {
            match v.get("OpenWindow") {
                Option::Some(inner) => {
                    match inner.as_text() {
                        Option::Some(name) => match decode_window_id(name.as_str()) {
                            Option::Some(id) => Option::Some(WindowManagerCommand::OpenWindow(id)),
                            Option::None => Option::None,
                        },
                        Option::None => Option::None,
                    }
                },
                Option::None => {
                    match v.get("CloseWindow") {
                        Option::Some(inner) => {
                            match inner.as_text() {
                                Option::Some(name) => match decode_window_id(name.as_str()) {
                                    Option::Some(id) => Option::Some(
                                        WindowManagerCommand::CloseWindow(id),
                                    ),
                                    Option::None => Option::None,
                                },
                                Option::None => Option::None,
                            }
                        },
                        Option::None => {
                            match v.get("SaveDockState") {
                                Option::Some(state) => Option::Some(
                                    WindowManagerCommand::SaveDockState(state.duplicate()),
                                ),
                                Option::None => Option::None,
                            }
                        },
                    }
                },
            }
        },
    }
}

/// Law: decoding an encoded window manager command restores it.
pub proof fn lemma_wm_command_round_trip(c: WindowManagerCommandV)
    ensures
        spec_dec_wm_command(spec_enc_wm_command(c)) == Option::Some(c),
{
    reveal_strlit("OpenWindow");
    reveal_strlit("CloseWindow");
    reveal_strlit("SaveDockState");
    assert("OpenWindow"@.len() == 10);
    assert("CloseWindow"@.len() == 11);
    assert("SaveDockState"@.len() == 13);
    match c {
        WindowManagerCommandV::OpenWindow(id) => {
            let outer = spec_enc_wm_command(c)->Object_0;
            lemma_fields_get_found(outer, "OpenWindow"@, 0);
            lemma_window_id_round_trip(id);
        },
        WindowManagerCommandV::CloseWindow(id) => {
            let outer = spec_enc_wm_command(c)->Object_0;
            lemma_fields_get_missing(outer, "OpenWindow"@);
            lemma_fields_get_found(outer, "CloseWindow"@, 0);
            lemma_window_id_round_trip(id);
        },
        WindowManagerCommandV::SaveDockState(v) => {
            let outer = spec_enc_wm_command(c)->Object_0;
            lemma_fields_get_missing(outer, "OpenWindow"@);
            lemma_fields_get_missing(outer, "CloseWindow"@);
            lemma_fields_get_found(outer, "SaveDockState"@, 0);
        },
        WindowManagerCommandV::LoadDockState => {
        },
    }
}

/// The events the window manager announces.
#[derive(Debug, Clone, Copy, PartialEq, Eq, Structural)]
pub enum WindowManagerEvent {
    DockStateSaved,
    DockStateRestored,
}

/// Encoding of a window manager event.
pub open spec fn spec_enc_wm_event(e: WindowManagerEvent) -> SpecValue {
    match e {
        WindowManagerEvent::DockStateSaved => SpecValue::Text("DockStateSaved"@),
        WindowManagerEvent::DockStateRestored => SpecValue::Text("DockStateRestored"@),
    }
}

/// Decoding of a window manager event.
pub open spec fn spec_dec_wm_event(v: SpecValue) -> Option<WindowManagerEvent> {
    if v == SpecValue::Text("DockStateSaved"@) {
        Option::Some(WindowManagerEvent::DockStateSaved)
    } else if v == SpecValue::Text("DockStateRestored"@) {
        Option::Some(WindowManagerEvent::DockStateRestored)
    } else {
        Option::None
    }
}

impl IEncode for WindowManagerEvent {
    open spec fn spec_enc(&self) -> SpecValue {
        spec_enc_wm_event(*self)
    }

    fn encode(&self) -> (r: StructValue) {
        match self {
            WindowManagerEvent::DockStateSaved => StructValue::text("DockStateSaved"),
            WindowManagerEvent::DockStateRestored => StructValue::text("DockStateRestored"),
        }
    }
}

impl ICommand for WindowManagerEvent {
    open spec fn spec_action(&self) -> Seq<char> {
        wm_event_action()
    }

    open spec fn spec_args(&self) -> SpecValue {
        self.spec_enc()
    }

    fn action(&self) -> (r: String) {
        "designer.window_manager.event".to_owned()
    }

    fn args(&self) -> (r: StructValue) {
        self.encode()
    }
}

/// Decodes a window manager event; the result models `spec_dec_wm_event`.
pub fn decode_wm_event(v: &StructValue) -> (r: Option<WindowManagerEvent>)
    ensures
        match r {
            Option::Some(e) => spec_dec_wm_event(v@) == Option::Some(e),
            Option::None => spec_dec_wm_event(v@) is None,
        },
{
    match v.as_text() {
        Option::Some(s) => {
            if str_eq(s.as_str(), "DockStateSaved") {
                Option::Some(WindowManagerEvent::DockStateSaved)
            } else if str_eq(s.as_str(), "DockStateRestored") {
                Option::Some(WindowManagerEvent::DockStateRestored)
            } else {
                Option::None
            }
        },
        Option::None => Option::None,
    }
}

/// Law: decoding an encoded window manager event restores it.
pub proof fn lemma_wm_event_round_trip(e: WindowManagerEvent)
    ensures
        spec_dec_wm_event(spec_enc_wm_event(e)) == Option::Some(e),
{
    reveal_strlit("DockStateSaved");
    reveal_strlit("DockStateRestored");
    assert("DockStateSaved"@.len() == 14);
    assert("DockStateRestored"@.len() == 17);
}

/// The host's answers to a dock settings read request.
#[derive(Debug)]
pub enum WindowManagerIo {
    /// The persisted dock layout was read and parsed.
    DockLoaded { value: StructValue },
    /// No dock layout is persisted for this project.
    DockMissing,
    /// A persisted dock layout exists but cannot be parsed.
    DockUnreadable,
}

/// The mathematical model of a `WindowManagerIo`.
#[verifier::ext_equal]
pub ghost enum WindowManagerIoV {
    DockLoaded { value: SpecValue },
    DockMissing,
    DockUnreadable,
}

impl View for WindowManagerIo {
    type V = WindowManagerIoV;

    open spec fn view(&self) -> WindowManagerIoV {
        match self {
            WindowManagerIo::DockLoaded { value } => WindowManagerIoV::DockLoaded {
                value: value@,
            },
            WindowManagerIo::DockMissing => WindowManagerIoV::DockMissing,
            WindowManagerIo::DockUnreadable => WindowManagerIoV::DockUnreadable,
        }
    }
}

/// Encoding of a host answer.
pub open spec fn spec_enc_wm_io(e: WindowManagerIoV) -> SpecValue {
    match e {
        WindowManagerIoV::DockLoaded { value } => SpecValue::Object(
            seq![("DockLoaded"@, value)],
        ),
        WindowManagerIoV::DockMissing => SpecValue::Text("DockMissing"@),
        WindowManagerIoV::DockUnreadable => SpecValue::Text("DockUnreadable"@),
    }
}

/// Decoding of a host answer.
pub open spec fn spec_dec_wm_io(v: SpecValue) -> Option<WindowManagerIoV> {
    if v == SpecValue::Text("DockMissing"@) {
        Option::Some(WindowManagerIoV::DockMissing)
    } else if v == SpecValue::Text("DockUnreadable"@) {
        Option::Some(WindowManagerIoV::DockUnreadable)
    } else {
        match spec_get(v, "DockLoaded"@) {
            Option::Some(value) => Option::Some(WindowManagerIoV::DockLoaded { value }),
            Option::None => Option::None,
        }
    }
}

impl IEncode for WindowManagerIo {
    open spec fn spec_enc(&self) -> SpecValue {
        spec_enc_wm_io(self@)
    }

    fn encode(&self) -> (r: StructValue) {
        match self {
            WindowManagerIo::DockLoaded { value } => {
                let mut outer: Vec<(String, StructValue)> = Vec::new();
                outer.push(("DockLoaded".to_owned(), value.duplicate()));
                let ghost go = outer@;
                let r = StructValue::Object(outer);
                proof {
                    lemma_fields_view(go);
                    assert(fields_view(go) =~= spec_enc_wm_io(self@)->Object_0);
                    assert(r@ == spec_enc_wm_io(self@));
                }
                r
            },
            WindowManagerIo::DockMissing => StructValue::text("DockMissing"),
            WindowManagerIo::DockUnreadable => StructValue::text("DockUnreadable"),
        }
    }
}

impl ICommand for WindowManagerIo {
    open spec fn spec_action(&self) -> Seq<char> {
        wm_io_action()
    }

    open spec fn spec_args(&self) -> SpecValue {
        self.spec_enc()
    }

    fn action(&self) -> (r: String) {
        "designer.window_manager.io".to_owned()
    }

    fn args(&self) -> (r: StructValue) {
        self.encode()
    }
}

/// Manages the persisted window dock layout.
#[derive(Debug)]
pub struct WindowManager {
    pub status: PluginStatus,
    pub dock_state: Option<StructValue>,
    pub dock_changes: Counter,
}

/// The mathematical model of a `WindowManager`.
#[verifier::ext_equal]
pub ghost struct WindowManagerV {
    pub status: PluginStatus,
    pub dock_state: Option<SpecValue>,
    pub dock_changes: int,
}

impl View for WindowManager {
    type V = WindowManagerV;

    open spec fn view(&self) -> WindowManagerV {
        WindowManagerV {
            status: self.status,
            dock_state: match self.dock_state {
                Option::Some(v) => Option::Some(v@),
                Option::None => Option::None,
            },
            dock_changes: self.dock_changes.count as int,
        }
    }
}

/// The `LoadDockState` command the window manager publishes to itself when
/// a project opens, as an envelope.
pub open spec fn wm_load_cmd_env() -> SpecEnvelope {
    SpecEnvelope {
        sender: wm_sender(),
        action: wm_action(),
        payload: spec_enc_wm_command(WindowManagerCommandV::LoadDockState),
    }
}

/// A window manager event announcement, as an envelope.
pub open spec fn wm_event_env(e: WindowManagerEvent) -> SpecEnvelope {
    SpecEnvelope { sender: wm_sender(), action: wm_event_action(), payload: spec_enc_wm_event(e) }
}

/// A log line published by the window manager, as an envelope.
pub open spec fn wm_log_env(category: Seq<char>, content: Seq<char>) -> SpecEnvelope {
    SpecEnvelope {
        sender: wm_sender(),
        action: crate::plugins::logger::log_action(),
        payload: spec_enc_log_command(LogCommandV::Generate { category, content }),
    }
}

/// How the window manager reacts to one delivered envelope.  A project
/// `Opened` announcement makes it ask itself to load the dock state; a
/// `SaveDockState` command turns into a write request for the host plus a
/// success log and a `DockStateSaved` announcement; `LoadDockState` turns
/// into a read request; the host's answers install or clear the layout,
/// count the change, and announce or log the outcome.  When no project is
/// open, save and load do nothing.  Malformed payloads and foreign actions
/// change nothing.
pub open spec fn wm_step(
    m: WindowManagerV,
    ppath: Option<Seq<char>>,
    sender: Seq<char>,
    action: Seq<char>,
    args: SpecValue,
) -> StepV<WindowManagerV> {
    if action == pm_event_action() {
        match spec_dec_pm_event(args) {
            Option::Some(ProjectManagerEventV::Opened { path }) => StepV {
                state: m,
                publishes: seq![wm_load_cmd_env()],
                requests: Seq::empty(),
                notify: false,
            },
            _ => quiet_step(m),
        }
    } else if action == wm_action() {
        match spec_dec_wm_command(args) {
            Option::Some(WindowManagerCommandV::OpenWindow(_)) => StepV {
                state: m,
                publishes: Seq::empty(),
                requests: Seq::empty(),
                notify: true,
            },
            Option::Some(WindowManagerCommandV::CloseWindow(_)) => StepV {
                state: m,
                publishes: Seq::empty(),
                requests: Seq::empty(),
                notify: true,
            },
            Option::Some(WindowManagerCommandV::SaveDockState(state)) => match ppath {
                Option::Some(path) => StepV {
                    state: m,
                    publishes: seq![
                        wm_log_env("Succeed"@, "Window dock state is stored."@),
                        wm_event_env(WindowManagerEvent::DockStateSaved),
                    ],
                    requests: seq![HostRequestV::WriteDockSettings { path, value: state }],
                    notify: true,
                },
                Option::None => StepV {
                    state: m,
                    publishes: Seq::empty(),
                    requests: Seq::empty(),
                    notify: true,
                },
            },
            Option::Some(WindowManagerCommandV::LoadDockState) => match ppath {
                Option::Some(path) => StepV {
                    state: m,
                    publishes: Seq::empty(),
                    requests: seq![HostRequestV::ReadDockSettings { path }],
                    notify: true,
                },
                Option::None => StepV {
                    state: m,
                    publishes: Seq::empty(),
                    requests: Seq::empty(),
                    notify: true,
                },
            },
            Option::None => quiet_step(m),
        }
    } else if action == wm_io_action() {
        match spec_dec_wm_io(args) {
            Option::Some(WindowManagerIoV::DockLoaded { value }) => StepV {
                state: WindowManagerV {
                    dock_state: Option::Some(value),
                    dock_changes: if m.dock_changes < usize::MAX {
                        m.dock_changes + 1
                    } else {
                        m.dock_changes
                    },
                    ..m
                },
                publishes: seq![
                    wm_log_env("Succeed"@, "Window dock state is restored."@),
                    wm_event_env(WindowManagerEvent::DockStateRestored),
                ],
                requests: Seq::empty(),
                notify: true,
            },
            Option::Some(WindowManagerIoV::DockMissing) => StepV {
                state: WindowManagerV { dock_state: Option::None, ..m },
                publishes: Seq::empty(),
                requests: Seq::empty(),
                notify: true,
            },
            Option::Some(WindowManagerIoV::DockUnreadable) => StepV {
                state: WindowManagerV { dock_state: Option::None, ..m },
                publishes: seq![
                    wm_log_env("Error"@, "Cannot deserialize window dock state so discarded."@),
                ],
                requests: Seq::empty(),
                notify: true,
            },
            Option::None => quiet_step(m),
        }
    } else {
        quiet_step(m)
    }
}

/// The snapshot `get_state` reports.  An absent layout is null; a present
/// layout is wrapped in a one-element list, so that a layout that is itself
/// null stays distinguishable.
pub open spec fn wm_snapshot(m: WindowManagerV) -> SpecValue {
    SpecValue::Object(
        seq![
            ("status"@, spec_enc_status(m.status)),
            (
                "dock_state"@,
                match m.dock_state {
                    Option::Some(v) => SpecValue::List(seq![v]),
                    Option::None => SpecValue::Null,
                },
            ),
        ],
    )
}

/// Decoding of a persisted window manager snapshot: status and layout.  The
/// change counter is runtime-only.
pub open spec fn wm_restore(v: SpecValue) -> Option<(PluginStatus, Option<SpecValue>)> {
    match (spec_get(v, "status"@), spec_get(v, "dock_state"@)) {
        (Option::Some(sv), Option::Some(dv)) => {
            let dock = match dv {
                SpecValue::Null => Option::Some(Option::None),
                SpecValue::List(items) => if items.len() == 1 {
                    Option::Some(Option::Some(items[0]))
                } else {
                    Option::None
                },
                _ => Option::None,
            };
            match (spec_dec_status(sv), dock) {
                (Option::Some(status), Option::Some(dock_state)) => Option::Some(
                    (status, dock_state),
                ),
                _ => Option::None,
            }
        },
        _ => Option::None,
    }
}

impl WindowManager {
    /// A fresh window manager: no layout, no changes counted, disabled.
    pub fn new() -> (r: Self)
        ensures
            r@ == (WindowManagerV {
                status: PluginStatus::Disabled,
                dock_state: Option::None,
                dock_changes: 0,
            }),
    {
        WindowManager {
            status: PluginStatus::Disabled,
            dock_state: Option::None,
            dock_changes: Counter::new(),
        }
    }

    /// This plugin's immutable identity.
    pub fn info(&self) -> (r: PluginInfo)
        ensures
            r.uuid@ == "35f27394-492c-4af5-804d-803a18a606e8"@,
            r.name@ == "Window manager"@,
            r.description@ == "Manages all the windowing functionality."@,
            r.version == (0usize, 0usize, 1usize),
            r.author@ == "dream-lab"@,
    {
        PluginInfo {
            uuid: "35f27394-492c-4af5-804d-803a18a606e8",
            name: "Window manager".to_owned(),
            version: (0, 0, 1),
            author: "dream-lab",
            description: "Manages all the windowing functionality.".to_owned(),
        }
    }

    /// The current lifecycle status.
    pub fn status(&self) -> (r: PluginStatus)
        ensures
            r == self.status,
    {
        self.status
    }

    /// One-time setup before the first enable; the window manager needs
    /// none.
    pub fn initialize(&mut self)
        ensures
            *final(self) == *old(self),
    {
    }

    /// Starts receiving envelopes.  Idempotent.
    pub fn enable(&mut self)
        ensures
            final(self)@ == (WindowManagerV { status: PluginStatus::Enabled, ..old(self)@ }),
    {
        self.status = PluginStatus::Enabled;
    }

    /// Stops receiving envelopes but keeps the layout.  Idempotent.
    pub fn disable(&mut self)
        ensures
            final(self)@ == (WindowManagerV { status: PluginStatus::Disabled, ..old(self)@ }),
    {
        self.status = PluginStatus::Disabled;
    }

    /// Handles one delivered envelope, exactly as `wm_step` says, given the
    /// open project's path.
    pub fn handle_message(
        &mut self,
        bus: &mut Dispatcher,
        project_path: &Option<String>,
        sender: &str,
        action: &str,
        args: StructValue,
    )
        requires
            old(bus).inv(),
            old(bus).busy(),
        ensures
            final(bus).inv(),
            ({
                let st = wm_step(
                    old(self)@,
                    crate::value::opt_text_view(*project_path),
                    sender@,
                    action@,
                    args@,
                );
                final(self)@ == st.state && bus_effect(
                    *old(bus),
                    *final(bus),
                    st.publishes,
                    st.requests,
                    st.notify,
                )
            }),
    {
        if str_eq(action, "designer.project_manager.event") {
            match decode_pm_event(&args) {
                Option::Some(ProjectManagerEvent::Opened { path }) => {
                    bus.publish("WindowManager", &WindowManagerCommand::LoadDockState);
                    proof {
                        let st = wm_step(
                            old(self)@,
                            crate::value::opt_text_view(*project_path),
                            sender@,
                            action@,
                            args@,
                        );
                        assert(st.publishes =~= seq![wm_load_cmd_env()]);
                        assert(final(bus).requests_model() =~= old(bus).requests_model()
                            + st.requests);
                    }
                },
                _ => {
                    proof {
                        lemma_bus_unchanged(*bus);
                    }
                },
            }
        } else if str_eq(action, "designer.window_manager.management") {
            match decode_wm_command(&args) {
                Option::Some(WindowManagerCommand::OpenWindow(_)) => {
                    bus.notify_ui();
                },
                Option::Some(WindowManagerCommand::CloseWindow(_)) => {
                    bus.notify_ui();
                },
                Option::Some(WindowManagerCommand::SaveDockState(state)) => {
                    match project_path {
                        Option::Some(path) => {
                            let ghost gp = path@;
                            bus.request(
                                HostRequest::WriteDockSettings { path: path.clone(), value: state },
                            );
                            let line = LogCommand::Generate {
                                category: "Succeed".to_owned(),
                                content: "Window dock state is stored.".to_owned(),
                            };
                            bus.publish("WindowManager", &line);
                            bus.publish("WindowManager", &WindowManagerEvent::DockStateSaved);
                            bus.notify_ui();
                            proof {
                                let st = wm_step(
                                    old(self)@,
                                    crate::value::opt_text_view(*project_path),
                                    sender@,
                                    action@,
                                    args@,
                                );
                                assert(st.publishes =~= seq![
                                    wm_log_env("Succeed"@, "Window dock state is stored."@),
                                    wm_event_env(WindowManagerEvent::DockStateSaved),
                                ]);
                                assert(final(bus).queue_model() =~= old(bus).queue_model()
                                    + st.publishes);
                                assert(final(bus).published() =~= old(bus).published()
                                    + st.publishes);
                                assert(final(bus).requests_model() =~= old(bus).requests_model()
                                    + st.requests);
                            }
                        },
                        Option::None => {
                            bus.notify_ui();
                        },
                    }
                },
                Option::Some(WindowManagerCommand::LoadDockState) => {
                    match project_path {
                        Option::Some(path) => {
                            bus.request(HostRequest::ReadDockSettings { path: path.clone() });
                            bus.notify_ui();
                            proof {
                                let st = wm_step(
                                    old(self)@,
                                    crate::value::opt_text_view(*project_path),
                                    sender@,
                                    action@,
                                    args@,
                                );
                                assert(final(bus).queue_model() =~= old(bus).queue_model()
                                    + st.publishes);
                                assert(final(bus).published() =~= old(bus).published()
                                    + st.publishes);
                                assert(final(bus).requests_model() =~= old(bus).requests_model()
                                    + st.requests);
                            }
                        },
                        Option::None => {
                            bus.notify_ui();
                        },
                    }
                },
                Option::None => {
                    proof {
                        lemma_bus_unchanged(*bus);
                    }
                },
            }
        } else if str_eq(action, "designer.window_manager.io") {
            match decode_wm_io(&args) {
                Option::Some(WindowManagerIo::DockLoaded { value }) => {
                    self.dock_state = Option::Some(value);
                    if self.dock_changes.count < usize::MAX {
                        let _generation = self.dock_changes.count();
                    }
                    let line = LogCommand::Generate {
                        category: "Succeed".to_owned(),
                        content: "Window dock state is restored.".to_owned(),
                    };
                    bus.publish("WindowManager", &line);
                    bus.publish("WindowManager", &WindowManagerEvent::DockStateRestored);
                    bus.notify_ui();
                    proof {
                        let st = wm_step(
                            old(self)@,
                            crate::value::opt_text_view(*project_path),
                            sender@,
                            action@,
                            args@,
                        );
                        assert(self@ == st.state);
                        assert(st.publishes =~= seq![
                            wm_log_env("Succeed"@, "Window dock state is restored."@),
                            wm_event_env(WindowManagerEvent::DockStateRestored),
                        ]);
                        assert(final(bus).queue_model() =~= old(bus).queue_model() + st.publishes);
                        assert(final(bus).published() =~= old(bus).published() + st.publishes);
                        assert(final(bus).requests_model() =~= old(bus).requests_model()
                            + st.requests);
                    }
                },
                Option::Some(WindowManagerIo::DockMissing) => {
                    self.dock_state = Option::None;
                    bus.notify_ui();
                },
                Option::Some(WindowManagerIo::DockUnreadable) => {
                    self.dock_state = Option::None;
                    let line = LogCommand::Generate {
                        category: "Error".to_owned(),
                        content: "Cannot deserialize window dock state so discarded.".to_owned(),
                    };
                    bus.publish("WindowManager", &line);
                    bus.notify_ui();
                    proof {
                        let st = wm_step(
                            old(self)@,
                            crate::value::opt_text_view(*project_path),
                            sender@,
                            action@,
                            args@,
                        );
                        assert(st.publishes =~= seq![
                            wm_log_env("Error"@, "Cannot deserialize window dock state so discarded."@),
                        ]);
                        assert(final(bus).queue_model() =~= old(bus).queue_model() + st.publishes);
                        assert(final(bus).published() =~= old(bus).published() + st.publishes);
                        assert(final(bus).requests_model() =~= old(bus).requests_model()
                            + st.requests);
                    }
                },
                Option::None => {
                    proof {
                        lemma_bus_unchanged(*bus);
                    }
                },
            }
        } else {
            proof {
                lemma_bus_unchanged(*bus);
            }
        }
    }

    /// A read-only structured snapshot for diagnostics and the UI.
    pub fn get_state(&self) -> (r: StructValue)
        ensures
            r@ == wm_snapshot(self@),
    {
        let dock_value = match &self.dock_state {
            Option::Some(v) => {
                let mut wrapped: Vec<StructValue> = Vec::new();
                wrapped.push(v.duplicate());
                let ghost gw = wrapped@;
                let w = StructValue::List(wrapped);
                proof {
                    lemma_seq_view(gw);
                    assert(w@->List_0 =~= seq![v@]);
                }
                w
            },
            Option::None => StructValue::Null,
        };
        let mut fields: Vec<(String, StructValue)> = Vec::new();
        fields.push(("status".to_owned(), encode_status(self.status)));
        fields.push(("dock_state".to_owned(), dock_value));
        let ghost gf = fields@;
        let r = StructValue::Object(fields);
        proof {
            lemma_fields_view(gf);
            assert(fields_view(gf) =~= wm_snapshot(self@)->Object_0);
            assert(r@ == wm_snapshot(self@));
        }
        r
    }

    /// Persists the snapshot that `get_state` reports.
    pub fn store_state<S: IPluginStateStorage>(&self, storage: &mut S)
        ensures
            final(storage).stored() == wm_snapshot(self@),
    {
        let snapshot = self.get_state();
        storage.store_state(snapshot);
    }

    /// Restores status and layout from the last persisted snapshot; the
    /// change counter is runtime-only and keeps its value.  A snapshot that
    /// does not decode leaves the plugin unchanged and reports the failure
    /// instead of aborting.
    pub fn load_state<S: IPluginStateStorage>(&mut self, storage: &mut S) -> (r: Result<
        (),
        CoreError,
    >)
        ensures
            final(storage).stored() == old(storage).stored(),
            match wm_restore(old(storage).stored()) {
                Option::Some(m) => r is Ok && final(self)@ == (WindowManagerV {
                    status: m.0,
                    dock_state: m.1,
                    dock_changes: old(self)@.dock_changes,
                }),
                Option::None => r == Result::<(), CoreError>::Err(
                    CoreError::StateDeserializationFailed,
                ) && *final(self) == *old(self),
            },
    {
        let value = storage.load_state();
        let sv = match value.get("status") {
            Option::Some(s) => s,
            Option::None => {
                return Result::Err(CoreError::StateDeserializationFailed);
            },
        };
        let status = match decode_status(sv) {
            Option::Some(st) => st,
            Option::None => {
                return Result::Err(CoreError::StateDeserializationFailed);
            },
        };
        let dv = match value.get("dock_state") {
            Option::Some(d) => d,
            Option::None => {
                return Result::Err(CoreError::StateDeserializationFailed);
            },
        };
        let dock_state: Option<StructValue> = match dv {
            StructValue::Null => Option::None,
            StructValue::List(items) => {
                proof {
                    lemma_seq_view(items@);
                }
                if items.len() == 1 {
                    Option::Some(items[0].duplicate())
                } else {
                    return Result::Err(CoreError::StateDeserializationFailed);
                }
            },
            _ => {
                return Result::Err(CoreError::StateDeserializationFailed);
            },
        };
        self.status = status;
        self.dock_state = dock_state;
        Result::Ok(())
    }
}

/// Law: restoring the persisted snapshot of any window manager yields its
/// status and layout, so a store followed by a load leaves `get_state`
/// unchanged.
pub proof fn lemma_wm_state_round_trip(m: WindowManagerV)
    ensures
        wm_restore(wm_snapshot(m)) == Option::Some((m.status, m.dock_state)),
{
    reveal_strlit("status");
    reveal_strlit("dock_state");
    assert("status"@.len() == 6);
    assert("dock_state"@.len() == 10);
    crate::plugin::lemma_status_round_trip(m.status);
    let fields = wm_snapshot(m)->Object_0;
    lemma_fields_get_found(fields, "status"@, 0);
    lemma_fields_get_found(fields, "dock_state"@, 1);
}

/// Decodes a host answer; the result models `spec_dec_wm_io`.
pub fn decode_wm_io(v: &StructValue) -> (r: Option<WindowManagerIo>)
    ensures
        match r {
            Option::Some(e) => spec_dec_wm_io(v@) == Option::Some(e@),
            Option::None => spec_dec_wm_io(v@) is None,
        },
{
    match v.as_text() {
        Option::Some(s) => {
            if str_eq(s.as_str(), "DockMissing") {
                Option::Some(WindowManagerIo::DockMissing)
            } else if str_eq(s.as_str(), "DockUnreadable") {
                Option::Some(WindowManagerIo::DockUnreadable)
            } else {
                Option::None
            }
        },
        Option::None => {
            match v.get("DockLoaded") {
                Option::Some(value) => Option::Some(
                    WindowManagerIo::DockLoaded { value: value.duplicate() },
                ),
                Option::None => Option::None,
            }
        },
    }
}

/// Law: decoding an encoded host answer restores it.
pub proof fn lemma_wm_io_round_trip(e: WindowManagerIoV)
    ensures
        spec_dec_wm_io(spec_enc_wm_io(e)) == Option::Some(e),
{
    reveal_strlit("DockMissing");
    reveal_strlit("DockUnreadable");
    reveal_strlit("DockLoaded");
    assert("DockMissing"@.len() == 11);
    assert("DockUnreadable"@.len() == 14);
    match e {
        WindowManagerIoV::DockLoaded { value } => {
            let outer = spec_enc_wm_io(e)->Object_0;
            lemma_fields_get_found(outer, "DockLoaded"@, 0);
        },
        _ => {
        },
    }
}

} // verus!
