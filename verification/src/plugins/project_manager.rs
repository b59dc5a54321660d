//! The project manager: opens and creates projects on behalf of the rest of
//! the system.  Reading and writing project files is the host's work; this
//! plugin decides what to ask for and what to announce, and keeps the open
//! project's description and path.

use vstd::prelude::*;

use crate::commands::CoreError;
use crate::commands::ICommand;
use crate::commands::IEncode;
use crate::commands::SpecEnvelope;
use crate::dispatch::bus_effect;
use crate::dispatch::lemma_bus_unchanged;
use crate::dispatch::quiet_step;
use crate::dispatch::Dispatcher;
use crate::dispatch::HostRequest;
use crate::dispatch::HostRequestV;
use crate::dispatch::StepV;
use crate::plugin::decode_status;
use crate::plugin::encode_status;
use crate::plugin::spec_dec_status;
use crate::plugin::spec_enc_status;
use crate::plugin::IPluginStateStorage;
use crate::plugin::PluginInfo;
use crate::plugin::PluginStatus;
use crate::plugins::logger::spec_enc_log_command;
use crate::plugins::logger::LogCommand;
use crate::plugins::logger::LogCommandV;
use crate::value::fields_view;
use crate::value::lemma_fields_get_found;
use crate::value::lemma_fields_get_missing;
use crate::value::lemma_fields_view;
use crate::value::lemma_seq_view;
use crate::value::spec_get;
use crate::value::str_eq;
use crate::value::SpecValue;
use crate::value::StructValue;

verus! {

/// The description of a project, as the project file holds it.
#[derive(Debug)]
pub struct Project {
    pub name: String,
    pub description: String,
    pub version: (u32, u32, u32),
    pub package_name: String,
    pub author: String,
    pub email: String,
}

/// The mathematical model of a `Project`.
#[verifier::ext_equal]
pub ghost struct ProjectV {
    pub name: Seq<char>,
    pub description: Seq<char>,
    pub version: (u32, u32, u32),
    pub package_name: Seq<char>,
    pub author: Seq<char>,
    pub email: Seq<char>,
}

impl View for Project {
    type V = ProjectV;

    open spec fn view(&self) -> ProjectV {
        ProjectV {
            name: self.name@,
            description: self.description@,
            version: self.version,
            package_name: self.package_name@,
            author: self.author@,
            email: self.email@,
        }
    }
}

impl Project {
    /// A blank project description with version 0.0.1.
    pub fn new_from_empty() -> (r: Self)
        ensures
            r@ == (ProjectV {
                name: ""@,
                description: ""@,
                version: (0u32, 0u32, 1u32),
                package_name: ""@,
                author: ""@,
                email: ""@,
            }),
    {
        Project {
            name: "".to_owned(),
            description: "".to_owned(),
            version: (0, 0, 1),
            package_name: "".to_owned(),
            author: "".to_owned(),
            email: "".to_owned(),
        }
    }
}

/// Encoding of a project description as a structured value.
pub open spec fn spec_enc_project(p: ProjectV) -> SpecValue {
    SpecValue::Object(
        seq![
            ("name"@, SpecValue::Text(p.name)),
            ("description"@, SpecValue::Text(p.description)),
            (
                "version"@,
                SpecValue::List(
                    seq![
                        SpecValue::Int(p.version.0 as int),
                        SpecValue::Int(p.version.1 as int),
                        SpecValue::Int(p.version.2 as int),
                    ],
                ),
            ),
            ("package_name"@, SpecValue::Text(p.package_name)),
            ("author"@, SpecValue::Text(p.author)),
            ("email"@, SpecValue::Text(p.email)),
        ],
    )
}

/// Decoding of a three-part version number.
pub open spec fn spec_dec_version(v: SpecValue) -> Option<(u32, u32, u32)> {
    match v {
        SpecValue::List(parts) => {
            if parts.len() == 3 {
                match (parts[0], parts[1], parts[2]) {
                    (SpecValue::Int(a), SpecValue::Int(b), SpecValue::Int(c)) => {
                        if 0 <= a <= u32::MAX && 0 <= b <= u32::MAX && 0 <= c <= u32::MAX {
                            Option::Some((a as u32, b as u32, c as u32))
                        } else {
                            Option::None
                        }
                    },
                    _ => Option::None,
                }
            } else {
                Option::None
            }
        },
        _ => Option::None,
    }
}

/// Decoding of a project description.
pub open spec fn spec_dec_project(v: SpecValue) -> Option<ProjectV> {
    match (
        spec_get(v, "name"@),
        spec_get(v, "description"@),
        spec_get(v, "version"@),
        spec_get(v, "package_name"@),
        spec_get(v, "author"@),
        spec_get(v, "email"@),
    ) {
        (
            Option::Some(SpecValue::Text(name)),
            Option::Some(SpecValue::Text(description)),
            Option::Some(ver),
            Option::Some(SpecValue::Text(package_name)),
            Option::Some(SpecValue::Text(author)),
            Option::Some(SpecValue::Text(email)),
        ) => match spec_dec_version(ver) {
            Option::Some(version) => Option::Some(
                ProjectV { name, description, version, package_name, author, email },
            ),
            Option::None => Option::None,
        },
        _ => Option::None,
    }
}

impl IEncode for Project {
    open spec fn spec_enc(&self) -> SpecValue {
        spec_enc_project(self@)
    }

    fn encode(&self) -> (r: StructValue) {
        let mut version: Vec<StructValue> = Vec::new();
        version.push(StructValue::Int(self.version.0 as i64));
        version.push(StructValue::Int(self.version.1 as i64));
        version.push(StructValue::Int(self.version.2 as i64));
        let ghost gv = version@;
        let mut fields: Vec<(String, StructValue)> = Vec::new();
        fields.push(("name".to_owned(), StructValue::Text(self.name.clone())));
        fields.push(("description".to_owned(), StructValue::Text(self.description.clone())));
        fields.push(("version".to_owned(), StructValue::List(version)));
        fields.push(("package_name".to_owned(), StructValue::Text(self.package_name.clone())));
        fields.push(("author".to_owned(), StructValue::Text(self.author.clone())));
        fields.push(("email".to_owned(), StructValue::Text(self.email.clone())));
        let ghost gf = fields@;
        let r = StructValue::Object(fields);
        proof {
            lemma_seq_view(gv);
            lemma_fields_view(gf);
            assert(crate::value::seq_view(gv) =~= spec_enc_project(self@)->Object_0[2].1->List_0);
            assert(fields_view(gf) =~= spec_enc_project(self@)->Object_0);
            assert(r@ == spec_enc_project(self@));
        }
        r
    }
}

/// Decodes a project description; the result models `spec_dec_project`.
pub fn decode_project(v: &StructValue) -> (r: Option<Project>)
    ensures
        match r {
            Option::Some(p) => spec_dec_project(v@) == Option::Some(p@),
            Option::None => spec_dec_project(v@) is None,
        },
{
    let name = match v.get_text("name") {
        Option::Some(s) => s,
        Option::None => {
            return Option::None;
        },
    };
    let description = match v.get_text("description") {
        Option::Some(s) => s,
        Option::None => {
            return Option::None;
        },
    };
    let package_name = match v.get_text("package_name") {
        Option::Some(s) => s,
        Option::None => {
            return Option::None;
        },
    };
    let author = match v.get_text("author") {
        Option::Some(s) => s,
        Option::None => {
            return Option::None;
        },
    };
    let email = match v.get_text("email") {
        Option::Some(s) => s,
        Option::None => {
            return Option::None;
        },
    };
    let ver = match v.get("version") {
        Option::Some(w) => w,
        Option::None => {
            return Option::None;
        },
    };
    let parts = match ver.as_list() {
        Option::Some(p) => p,
        Option::None => {
            return Option::None;
        },
    };
    proof {
        lemma_seq_view(parts@);
    }
    if parts.len() != 3 {
        return Option::None;
    }
    let a = match parts[0].as_int() {
        Option::Some(i) => i,
        Option::None => {
            return Option::None;
        },
    };
    let b = match parts[1].as_int() {
        Option::Some(i) => i,
        Option::None => {
            return Option::None;
        },
    };
    let c = match parts[2].as_int() {
        Option::Some(i) => i,
        Option::None => {
            return Option::None;
        },
    };
    if a < 0 || a > u32::MAX as i64 || b < 0 || b > u32::MAX as i64 || c < 0 || c > u32::MAX
        as i64 {
        return Option::None;
    }
    Option::Some(
        Project {
            name: name.clone(),
            description: description.clone(),
            version: (a as u32, b as u32, c as u32),
            package_name: package_name.clone(),
            author: author.clone(),
            email: email.clone(),
        },
    )
}

/// Law: decoding an encoded project description restores it.
pub proof fn lemma_project_round_trip(p: ProjectV)
    ensures
        spec_dec_project(spec_enc_project(p)) == Option::Some(p),
{
    reveal_strlit("name");
    reveal_strlit("description");
    reveal_strlit("version");
    reveal_strlit("package_name");
    reveal_strlit("author");
    reveal_strlit("email");
    assert("name"@.len() == 4);
    assert("description"@.len() == 11);
    assert("version"@.len() == 7);
    assert("package_name"@.len() == 12);
    assert("author"@.len() == 6);
    assert("email"@.len() == 5);
    let fields = spec_enc_project(p)->Object_0;
    lemma_fields_get_found(fields, "name"@, 0);
    lemma_fields_get_found(fields, "description"@, 1);
    lemma_fields_get_found(fields, "version"@, 2);
    lemma_fields_get_found(fields, "package_name"@, 3);
    lemma_fields_get_found(fields, "author"@, 4);
    lemma_fields_get_found(fields, "email"@, 5);
}

/// The commands understood by the project manager.
#[derive(Debug)]
pub enum ProjectManagerCommand {
    /// Open the project stored under `path`.
    OpenProject { path: String },
    /// Create a project under `path` from the given description.
    CreateProject { path: String, project: Project },
    /// Close the open project.
    CloseProject,
}

/// The mathematical model of a `ProjectManagerCommand`.
#[verifier::ext_equal]
pub ghost enum ProjectManagerCommandV {
    OpenProject { path: Seq<char> },
    CreateProject { path: Seq<char>, project: ProjectV },
    CloseProject,
}

impl View for ProjectManagerCommand {
    type V = ProjectManagerCommandV;

    open spec fn view(&self) -> ProjectManagerCommandV {
        match self {
            ProjectManagerCommand::OpenProject { path } => ProjectManagerCommandV::OpenProject {
                path: path@,
            },
            ProjectManagerCommand::CreateProject { path, project } => {
                ProjectManagerCommandV::CreateProject { path: path@, project: project@ }
            },
            ProjectManagerCommand::CloseProject => ProjectManagerCommandV::CloseProject,
        }
    }
}

/// The action under which project manager commands travel.
pub open spec fn pm_action() -> Seq<char> {
    "designer.project_manager.management"@
}

/// The action under which project manager events travel.
pub open spec fn pm_event_action() -> Seq<char> {
    "designer.project_manager.event"@
}

/// The action under which the host reports the outcome of a project file
/// read back to the project manager.
pub open spec fn pm_io_action() -> Seq<char> {
    "designer.project_manager.io"@
}

/// The sender name the project manager publishes under.
pub open spec fn pm_sender() -> Seq<char> {
    "designer.project_manager"@
}

/// Encoding of a project manager command.
pub open spec fn spec_enc_pm_command(c: ProjectManagerCommandV) -> SpecValue {
    match c {
        ProjectManagerCommandV::OpenProject { path } => SpecValue::Object(
            seq![("OpenProject"@, SpecValue::Object(seq![("path"@, SpecValue::Text(path))]))],
        ),
        ProjectManagerCommandV::CreateProject { path, project } => SpecValue::Object(
            seq![
                (
                    "CreateProject"@,
                    SpecValue::Object(
                        seq![
                            ("path"@, SpecValue::Text(path)),
                            ("project"@, spec_enc_project(project)),
                        ],
                    ),
                ),
            ],
        ),
        ProjectManagerCommandV::CloseProject => SpecValue::Text("CloseProject"@),
    }
}

/// Decoding of a project manager command.
pub open spec fn spec_dec_pm_command(v: SpecValue) -> Option<ProjectManagerCommandV> {
    if v == SpecValue::Text("CloseProject"@) {
        Option::Some(ProjectManagerCommandV::CloseProject)
    } else {
        match spec_get(v, "OpenProject"@) {
            Option::Some(inner) => match spec_get(inner, "path"@) {
                Option::Some(SpecValue::Text(path)) => Option::Some(
                    ProjectManagerCommandV::OpenProject { path },
                ),
                _ => Option::None,
            },
            Option::None => match spec_get(v, "CreateProject"@) {
                Option::Some(inner) => match (
                    spec_get(inner, "path"@),
                    spec_get(inner, "project"@),
                ) {
                    (Option::Some(SpecValue::Text(path)), Option::Some(pr)) => match
                        spec_dec_project(pr) {
                        Option::Some(project) => Option::Some(
                            ProjectManagerCommandV::CreateProject { path, project },
                        ),
                        Option::None => Option::None,
                    },
                    _ => Option::None,
                },
                Option::None => Option::None,
            },
        }
    }
}

impl IEncode for ProjectManagerCommand {
    open spec fn spec_enc(&self) -> SpecValue {
        spec_enc_pm_command(self@)
    }

    fn encode(&self) -> (r: StructValue) {
        match self {
            ProjectManagerCommand::OpenProject { path } => {
                let mut inner: Vec<(String, StructValue)> = Vec::new();
                inner.push(("path".to_owned(), StructValue::Text(path.clone())));
                let ghost gi = inner@;
                let mut outer: Vec<(String, StructValue)> = Vec::new();
                outer.push(("OpenProject".to_owned(), StructValue::Object(inner)));
                let ghost go = outer@;
                let r = StructValue::Object(outer);
                proof {
                    lemma_fields_view(gi);
                    lemma_fields_view(go);
                    assert(fields_view(gi) =~= seq![("path"@, SpecValue::Text(path@))]);
                    assert(fields_view(go) =~= spec_enc_pm_command(self@)->Object_0);
                    assert(r@ == spec_enc_pm_command(self@));
                }
                r
            },
            ProjectManagerCommand::CreateProject { path, project } => {
                let mut inner: Vec<(String, StructValue)> = Vec::new();
                inner.push(("path".to_owned(), StructValue::Text(path.clone())));
                inner.push(("project".to_owned(), project.encode()));
                let ghost gi = inner@;
                let mut outer: Vec<(String, StructValue)> = Vec::new();
                outer.push(("CreateProject".to_owned(), StructValue::Object(inner)));
                let ghost go = outer@;
                let r = StructValue::Object(outer);
                proof {
                    lemma_fields_view(gi);
                    lemma_fields_view(go);
                    assert(fields_view(gi) =~= seq![
                        ("path"@, SpecValue::Text(path@)),
                        ("project"@, spec_enc_project(project@)),
                    ]);
                    assert(fields_view(go) =~= spec_enc_pm_command(self@)->Object_0);
                    assert(r@ == spec_enc_pm_command(self@));
                }
                r
            },
            ProjectManagerCommand::CloseProject => StructValue::text("CloseProject"),
        }
    }
}

impl ICommand for ProjectManagerCommand {
    open spec fn spec_action(&self) -> Seq<char> {
        pm_action()
    }

    open spec fn spec_args(&self) -> SpecValue {
        self.spec_enc()
    }

    fn action(&self) -> (r: String) {
        "designer.project_manager.management".to_owned()
    }

    fn args(&self) -> (r: StructValue) {
        self.encode()
    }
}

/// Decodes a project manager command; the result models
/// `spec_dec_pm_command`.
pub fn decode_pm_command(v: &StructValue) -> (r: Option<ProjectManagerCommand>)
    ensures
        match r {
            Option::Some(c) => spec_dec_pm_command(v@) == Option::Some(c@),
            Option::None => spec_dec_pm_command(v@) is None,
        },
{
    match v.as_text() {
        Option::Some(s) => {
            if str_eq(s.as_str(), "CloseProject") {
                Option::Some(ProjectManagerCommand::CloseProject)
            } else {
                Option::None
            }
        },
        Option::None => {
            match v.get("OpenProject") {
                Option::Some(inner) => {
                    match inner.get_text("path") {
                        Option::Some(path) => Option::Some(
                            ProjectManagerCommand::OpenProject { path: path.clone() },
                        ),
                        Option::None => Option::None,
                    }
                },
                Option::None => {
                    let inner = match v.get("CreateProject") {
                        Option::Some(i) => i,
                        Option::None => {
                            return Option::None;
                        },
                    };
                    let path = match inner.get_text("path") {
                        Option::Some(p) => p,
                        Option::None => {
                            return Option::None;
                        },
                    };
                    let pr = match inner.get("project") {
                        Option::Some(p) => p,
                        Option::None => {
                            return Option::None;
                        },
                    };
                    match decode_project(pr) {
                        Option::Some(project) => Option::Some(
                            ProjectManagerCommand::CreateProject { path: path.clone(), project },
                        ),
                        Option::None => Option::None,
                    }
                },
            }
        },
    }
}

/// Law: decoding an encoded project manager command restores it.
pub proof fn lemma_pm_command_round_trip(c: ProjectManagerCommandV)
    ensures
        spec_dec_pm_command(spec_enc_pm_command(c)) == Option::Some(c),
{
    reveal_strlit("OpenProject");
    reveal_strlit("CreateProject");
    reveal_strlit("path");
    reveal_strlit("project");
    assert("OpenProject"@.len() == 11);
    assert("CreateProject"@.len() == 13);
    assert("path"@.len() == 4);
    assert("project"@.len() == 7);
    match c {
        ProjectManagerCommandV::OpenProject { path } => {
            let outer = spec_enc_pm_command(c)->Object_0;
            lemma_fields_get_found(outer, "OpenProject"@, 0);
            lemma_fields_get_found(outer[0].1->Object_0, "path"@, 0);
        },
        ProjectManagerCommandV::CreateProject { path, project } => {
            let outer = spec_enc_pm_command(c)->Object_0;
            lemma_fields_get_missing(outer, "OpenProject"@);
            lemma_fields_get_found(outer, "CreateProject"@, 0);
            lemma_fields_get_found(outer[0].1->Object_0, "path"@, 0);
            lemma_fields_get_found(outer[0].1->Object_0, "project"@, 1);
            lemma_project_round_trip(project);
        },
        ProjectManagerCommandV::CloseProject => {
        },
    }
}

/// The events the project manager announces.
#[derive(Debug)]
pub enum ProjectManagerEvent {
    /// The project under `path` is open.
    Opened { path: String },
    /// A project was created under `path`.
    Created { path: String },
}

/// The mathematical model of a `ProjectManagerEvent`.
#[verifier::ext_equal]
pub ghost enum ProjectManagerEventV {
    Opened { path: Seq<char> },
    Created { path: Seq<char> },
}

impl View for ProjectManagerEvent {
    type V = ProjectManagerEventV;

    open spec fn view(&self) -> ProjectManagerEventV {
        match self {
            ProjectManagerEvent::Opened { path } => ProjectManagerEventV::Opened { path: path@ },
            ProjectManagerEvent::Created { path } => ProjectManagerEventV::Created { path: path@ },
        }
    }
}

/// Encoding of a project manager event.
pub open spec fn spec_enc_pm_event(e: ProjectManagerEventV) -> SpecValue {
    match e {
        ProjectManagerEventV::Opened { path } => SpecValue::Object(
            seq![("Opened"@, SpecValue::Object(seq![("path"@, SpecValue::Text(path))]))],
        ),
        ProjectManagerEventV::Created { path } => SpecValue::Object(
            seq![("Created"@, SpecValue::Object(seq![("path"@, SpecValue::Text(path))]))],
        ),
    }
}

/// Decoding of a project manager event.
pub open spec fn spec_dec_pm_event(v: SpecValue) -> Option<ProjectManagerEventV> {
    match spec_get(v, "Opened"@) {
        Option::Some(inner) => match spec_get(inner, "path"@) {
            Option::Some(SpecValue::Text(path)) => Option::Some(
                ProjectManagerEventV::Opened { path },
            ),
            _ => Option::None,
        },
        Option::None => match spec_get(v, "Created"@) {
            Option::Some(inner) => match spec_get(inner, "path"@) {
                Option::Some(SpecValue::Text(path)) => Option::Some(
                    ProjectManagerEventV::Created { path },
                ),
                _ => Option::None,
            },
            Option::None => Option::None,
        },
    }
}

impl IEncode for ProjectManagerEvent {
    open spec fn spec_enc(&self) -> SpecValue {
        spec_enc_pm_event(self@)
    }

    fn encode(&self) -> (r: StructValue) {
        let (key, path) = match self {
            ProjectManagerEvent::Opened { path } => ("Opened", path),
            ProjectManagerEvent::Created { path } => ("Created", path),
        };
        let mut inner: Vec<(String, StructValue)> = Vec::new();
        inner.push(("path".to_owned(), StructValue::Text(path.clone())));
        let ghost gi = inner@;
        let mut outer: Vec<(String, StructValue)> = Vec::new();
        outer.push((key.to_owned(), StructValue::Object(inner)));
        let ghost go = outer@;
        let r = StructValue::Object(outer);
        proof {
            lemma_fields_view(gi);
            lemma_fields_view(go);
            assert(fields_view(gi) =~= seq![("path"@, SpecValue::Text(path@))]);
            assert(fields_view(go) =~= spec_enc_pm_event(self@)->Object_0);
            assert(r@ == spec_enc_pm_event(self@));
        }
        r
    }
}

impl ICommand for ProjectManagerEvent {
    open spec fn spec_action(&self) -> Seq<char> {
        pm_event_action()
    }

    open spec fn spec_args(&self) -> SpecValue {
        self.spec_enc()
    }

    fn action(&self) -> (r: String) {
        "designer.project_manager.event".to_owned()
    }

    fn args(&self) -> (r: StructValue) {
        self.encode()
    }
}

/// Decodes a project manager event; the result models `spec_dec_pm_event`.
pub fn decode_pm_event(v: &StructValue) -> (r: Option<ProjectManagerEvent>)
    ensures
        match r {
            Option::Some(e) => spec_dec_pm_event(v@) == Option::Some(e@),
            Option::None => spec_dec_pm_event(v@) is None,
        },
{
    match v.get("Opened") {
        Option::Some(inner) => {
            match inner.get_text("path") {
                Option::Some(path) => Option::Some(
                    ProjectManagerEvent::Opened { path: path.clone() },
                ),
                Option::None => Option::None,
            }
        },
        Option::None => {
            match v.get("Created") {
                Option::Some(inner) => {
                    match inner.get_text("path") {
                        Option::Some(path) => Option::Some(
                            ProjectManagerEvent::Created { path: path.clone() },
                        ),
                        Option::None => Option::None,
                    }
                },
                Option::None => Option::None,
            }
        },
    }
}

/// Law: decoding an encoded project manager event restores it.
pub proof fn lemma_pm_event_round_trip(e: ProjectManagerEventV)
    ensures
        spec_dec_pm_event(spec_enc_pm_event(e)) == Option::Some(e),
{
    reveal_strlit("Opened");
    reveal_strlit("Created");
    reveal_strlit("path");
    assert("Opened"@.len() == 6);
    assert("Created"@.len() == 7);
    match e {
        ProjectManagerEventV::Opened { path } => {
            let outer = spec_enc_pm_event(e)->Object_0;
            lemma_fields_get_found(outer, "Opened"@, 0);
            lemma_fields_get_found(outer[0].1->Object_0, "path"@, 0);
        },
        ProjectManagerEventV::Created { path } => {
            let outer = spec_enc_pm_event(e)->Object_0;
            lemma_fields_get_missing(outer, "Opened"@);
            lemma_fields_get_found(outer, "Created"@, 0);
            lemma_fields_get_found(outer[0].1->Object_0, "path"@, 0);
        },
    }
}

/// The host's answers to a project file read request.
#[derive(Debug)]
pub enum ProjectManagerIo {
    /// The project file under `path` was read and parsed.
    Loaded { path: String, project: Project },
    /// The project file under `path` could not be read or parsed.
    LoadFailed { path: String },
}

/// The mathematical model of a `ProjectManagerIo`.
#[verifier::ext_equal]
pub ghost enum ProjectManagerIoV {
    Loaded { path: Seq<char>, project: ProjectV },
    LoadFailed { path: Seq<char> },
}

impl View for ProjectManagerIo {
    type V = ProjectManagerIoV;

    open spec fn view(&self) -> ProjectManagerIoV {
        match self {
            ProjectManagerIo::Loaded { path, project } => ProjectManagerIoV::Loaded {
                path: path@,
                project: project@,
            },
            ProjectManagerIo::LoadFailed { path } => ProjectManagerIoV::LoadFailed { path: path@ },
        }
    }
}

/// Encoding of a host answer.
pub open spec fn spec_enc_pm_io(e: ProjectManagerIoV) -> SpecValue {
    match e {
        ProjectManagerIoV::Loaded { path, project } => SpecValue::Object(
            seq![
                (
                    "Loaded"@,
                    SpecValue::Object(
                        seq![
                            ("path"@, SpecValue::Text(path)),
                            ("project"@, spec_enc_project(project)),
                        ],
                    ),
                ),
            ],
        ),
        ProjectManagerIoV::LoadFailed { path } => SpecValue::Object(
            seq![("LoadFailed"@, SpecValue::Object(seq![("path"@, SpecValue::Text(path))]))],
        ),
    }
}

/// Decoding of a host answer.
pub open spec fn spec_dec_pm_io(v: SpecValue) -> Option<ProjectManagerIoV> {
    match spec_get(v, "Loaded"@) {
        Option::Some(inner) => match (spec_get(inner, "path"@), spec_get(inner, "project"@)) {
            (Option::Some(SpecValue::Text(path)), Option::Some(pr)) => match spec_dec_project(
                pr,
            ) {
                Option::Some(project) => Option::Some(ProjectManagerIoV::Loaded { path, project }),
                Option::None => Option::None,
            },
            _ => Option::None,
        },
        Option::None => match spec_get(v, "LoadFailed"@) {
            Option::Some(inner) => match spec_get(inner, "path"@) {
                Option::Some(SpecValue::Text(path)) => Option::Some(
                    ProjectManagerIoV::LoadFailed { path },
                ),
                _ => Option::None,
            },
            Option::None => Option::None,
        },
    }
}

impl IEncode for ProjectManagerIo {
    open spec fn spec_enc(&self) -> SpecValue {
        spec_enc_pm_io(self@)
    }

    fn encode(&self) -> (r: StructValue) {
        match self {
            ProjectManagerIo::Loaded { path, project } => {
                let mut inner: Vec<(String, StructValue)> = Vec::new();
                inner.push(("path".to_owned(), StructValue::Text(path.clone())));
                inner.push(("project".to_owned(), project.encode()));
                let ghost gi = inner@;
                let mut outer: Vec<(String, StructValue)> = Vec::new();
                outer.push(("Loaded".to_owned(), StructValue::Object(inner)));
                let ghost go = outer@;
                let r = StructValue::Object(outer);
                proof {
                    lemma_fields_view(gi);
                    lemma_fields_view(go);
                    assert(fields_view(gi) =~= seq![
                        ("path"@, SpecValue::Text(path@)),
                        ("project"@, spec_enc_project(project@)),
                    ]);
                    assert(fields_view(go) =~= spec_enc_pm_io(self@)->Object_0);
                    assert(r@ == spec_enc_pm_io(self@));
                }
                r
            },
            ProjectManagerIo::LoadFailed { path } => {
                let mut inner: Vec<(String, StructValue)> = Vec::new();
                inner.push(("path".to_owned(), StructValue::Text(path.clone())));
                let ghost gi = inner@;
                let mut outer: Vec<(String, StructValue)> = Vec::new();
                outer.push(("LoadFailed".to_owned(), StructValue::Object(inner)));
                let ghost go = outer@;
                let r = StructValue::Object(outer);
                proof {
                    lemma_fields_view(gi);
                    lemma_fields_view(go);
                    assert(fields_view(gi) =~= seq![("path"@, SpecValue::Text(path@))]);
                    assert(fields_view(go) =~= spec_enc_pm_io(self@)->Object_0);
                    assert(r@ == spec_enc_pm_io(self@));
                }
                r
            },
        }
    }
}

impl ICommand for ProjectManagerIo {
    open spec fn spec_action(&self) -> Seq<char> {
        pm_io_action()
    }

    open spec fn spec_args(&self) -> SpecValue {
        self.spec_enc()
    }

    fn action(&self) -> (r: String) {
        "designer.project_manager.io".to_owned()
    }

    fn args(&self) -> (r: StructValue) {
        self.encode()
    }
}

/// Decodes a host answer; the result models `spec_dec_pm_io`.
pub fn decode_pm_io(v: &StructValue) -> (r: Option<ProjectManagerIo>)
    ensures
        match r {
            Option::Some(e) => spec_dec_pm_io(v@) == Option::Some(e@),
            Option::None => spec_dec_pm_io(v@) is None,
        },
{
    match v.get("Loaded") {
        Option::Some(inner) => {
            let path = match inner.get_text("path") {
                Option::Some(p) => p,
                Option::None => {
                    return Option::None;
                },
            };
            let pr = match inner.get("project") {
                Option::Some(p) => p,
                Option::None => {
                    return Option::None;
                },
            };
            match decode_project(pr) {
                Option::Some(project) => Option::Some(
                    ProjectManagerIo::Loaded { path: path.clone(), project },
                ),
                Option::None => Option::None,
            }
        },
        Option::None => {
            match v.get("LoadFailed") {
                Option::Some(inner) => {
                    match inner.get_text("path") {
                        Option::Some(path) => Option::Some(
                            ProjectManagerIo::LoadFailed { path: path.clone() },
                        ),
                        Option::None => Option::None,
                    }
                },
                Option::None => Option::None,
            }
        },
    }
}

/// Opens, creates and keeps track of the current project.
#[derive(Debug)]
pub struct ProjectManager {
    pub path: Option<String>,
    pub recent_projects: Vec<String>,
    pub status: PluginStatus,
    pub project: Option<Project>,
}

/// The mathematical model of a `ProjectManager`.
#[verifier::ext_equal]
pub ghost struct ProjectManagerV {
    pub path: Option<Seq<char>>,
    pub recent_projects: Seq<Seq<char>>,
    pub status: PluginStatus,
    pub project: Option<ProjectV>,
}

impl View for ProjectManager {
    type V = ProjectManagerV;

    open spec fn view(&self) -> ProjectManagerV {
        ProjectManagerV {
            path: crate::value::opt_text_view(self.path),
            recent_projects: crate::value::texts_view(self.recent_projects@),
            status: self.status,
            project: match self.project {
                Option::Some(p) => Option::Some(p@),
                Option::None => Option::None,
            },
        }
    }
}

/// The `Opened` announcement for `path`, as an envelope.
pub open spec fn pm_opened_env(path: Seq<char>) -> SpecEnvelope {
    SpecEnvelope {
        sender: pm_sender(),
        action: pm_event_action(),
        payload: spec_enc_pm_event(ProjectManagerEventV::Opened { path }),
    }
}

/// The `Created` announcement for `path`, as an envelope.
pub open spec fn pm_created_env(path: Seq<char>) -> SpecEnvelope {
    SpecEnvelope {
        sender: pm_sender(),
        action: pm_event_action(),
        payload: spec_enc_pm_event(ProjectManagerEventV::Created { path }),
    }
}

/// The log line published when a project file cannot be read.
pub open spec fn pm_load_error_env() -> SpecEnvelope {
    SpecEnvelope {
        sender: pm_sender(),
        action: crate::plugins::logger::log_action(),
        payload: spec_enc_log_command(
            LogCommandV::Generate {
                category: "Error"@,
                content: "Cannot open project file."@,
            },
        ),
    }
}

/// How the project manager reacts to one delivered envelope.  An
/// `OpenProject` command turns into a read request for the host; the host's
/// `Loaded` answer installs the project and announces `Opened`; a failed
/// read is reported as a log line instead of aborting.  `CreateProject`
/// turns into a write request and announces `Created`.  Malformed payloads
/// and foreign actions change nothing.
pub open spec fn pm_step(
    m: ProjectManagerV,
    sender: Seq<char>,
    action: Seq<char>,
    args: SpecValue,
) -> StepV<ProjectManagerV> {
    if action == pm_action() {
        match spec_dec_pm_command(args) {
            Option::Some(ProjectManagerCommandV::OpenProject { path }) => StepV {
                state: m,
                publishes: Seq::empty(),
                requests: seq![HostRequestV::ReadProjectFile { path }],
                notify: true,
            },
            Option::Some(ProjectManagerCommandV::CreateProject { path, project }) => StepV {
                state: m,
                publishes: seq![pm_created_env(path)],
                requests: seq![
                    HostRequestV::WriteProjectFile { path, value: spec_enc_project(project) },
                ],
                notify: true,
            },
            Option::Some(ProjectManagerCommandV::CloseProject) => StepV {
                state: m,
                publishes: Seq::empty(),
                requests: Seq::empty(),
                notify: true,
            },
            Option::None => quiet_step(m),
        }
    } else if action == pm_io_action() {
        match spec_dec_pm_io(args) {
            Option::Some(ProjectManagerIoV::Loaded { path, project }) => StepV {
                state: ProjectManagerV {
                    path: Option::Some(path),
                    project: Option::Some(project),
                    ..m
                },
                publishes: seq![pm_opened_env(path)],
                requests: Seq::empty(),
                notify: true,
            },
            Option::Some(ProjectManagerIoV::LoadFailed { path }) => StepV {
                state: m,
                publishes: seq![pm_load_error_env()],
                requests: Seq::empty(),
                notify: true,
            },
            Option::None => quiet_step(m),
        }
    } else {
        quiet_step(m)
    }
}

/// The snapshot `get_state` reports: path, recent projects and status.  The
/// open project itself is runtime-only and is not persisted.
pub open spec fn pm_snapshot(m: ProjectManagerV) -> SpecValue {
    SpecValue::Object(
        seq![
            (
                "path"@,
                match m.path {
                    Option::Some(p) => SpecValue::Text(p),
                    Option::None => SpecValue::Null,
                },
            ),
            (
                "recent_projects"@,
                SpecValue::List(
                    Seq::new(m.recent_projects.len(), |i: int| SpecValue::Text(m.recent_projects[i])),
                ),
            ),
            ("status"@, spec_enc_status(m.status)),
        ],
    )
}

/// The text of one persisted recent-project entry.
pub open spec fn spec_dec_text(v: SpecValue) -> Option<Seq<char>> {
    match v {
        SpecValue::Text(s) => Option::Some(s),
        _ => Option::None,
    }
}

/// The recent-project list decoded from the persisted list, if every
/// element is text.
pub open spec fn pm_restore_recent(items: Seq<SpecValue>) -> Option<Seq<Seq<char>>> {
    if forall|k: int| 0 <= k < items.len() ==> (#[trigger] spec_dec_text(items[k])) is Some {
        Option::Some(Seq::new(items.len(), |k: int| spec_dec_text(items[k])->Some_0))
    } else {
        Option::None
    }
}

/// Decoding of a persisted project manager snapshot.  The restored state
/// has no open project: only path, recent projects and status persist.
pub open spec fn pm_restore(v: SpecValue) -> Option<ProjectManagerV> {
    match (spec_get(v, "path"@), spec_get(v, "recent_projects"@), spec_get(v, "status"@)) {
        (Option::Some(pv), Option::Some(SpecValue::List(items)), Option::Some(sv)) => {
            let path = match pv {
                SpecValue::Text(p) => Option::Some(Option::Some(p)),
                SpecValue::Null => Option::Some(Option::None),
                _ => Option::None,
            };
            match (path, pm_restore_recent(items), spec_dec_status(sv)) {
                (Option::Some(path), Option::Some(recent_projects), Option::Some(status)) => {
                    Option::Some(
                        ProjectManagerV {
                            path,
                            recent_projects,
                            status,
                            project: Option::None,
                        },
                    )
                },
                _ => Option::None,
            }
        },
        _ => Option::None,
    }
}

impl ProjectManager {
    /// A fresh project manager: no project open, no recents, disabled.
    pub fn new() -> (r: Self)
        ensures
            r@ == (ProjectManagerV {
                path: Option::None,
                recent_projects: Seq::empty(),
                status: PluginStatus::Disabled,
                project: Option::None,
            }),
    {
        let r = ProjectManager {
            path: Option::None,
            recent_projects: Vec::new(),
            status: PluginStatus::Disabled,
            project: Option::None,
        };
        proof {
            assert(r@.recent_projects =~= Seq::<Seq<char>>::empty());
        }
        r
    }

    /// Whether a project is currently open.
    pub fn project_is_available(&self) -> (r: bool)
        ensures
            r == (self@.project is Some),
    {
        self.project.is_some()
    }

    /// This plugin's immutable identity.
    pub fn info(&self) -> (r: PluginInfo)
        ensures
            r.uuid@ == "3979dec2-8e5c-4860-8b1c-07a8fd2d560f"@,
            r.name@ == "Project manager (Native plugin)"@,
            r.description@ == "Provides Opening, Creating And Analyzing features for IDE"@,
            r.version == (0usize, 0usize, 1usize),
            r.author@ == "dream-lab"@,
    {
        PluginInfo {
            name: "Project manager (Native plugin)".to_owned(),
            author: "dream-lab",
            uuid: "3979dec2-8e5c-4860-8b1c-07a8fd2d560f",
            description: "Provides Opening, Creating And Analyzing features for IDE".to_owned(),
            version: (0, 0, 1),
        }
    }

    /// The current lifecycle status.
    pub fn status(&self) -> (r: PluginStatus)
        ensures
            r == self.status,
    {
        self.status
    }

    /// One-time setup before the first enable; the project manager needs
    /// none.
    pub fn initialize(&mut self)
        ensures
            *final(self) == *old(self),
    {
    }

    /// Starts receiving envelopes.  Idempotent.
    pub fn enable(&mut self)
        ensures
            final(self)@ == (ProjectManagerV { status: PluginStatus::Enabled, ..old(self)@ }),
    {
        self.status = PluginStatus::Enabled;
    }

    /// Stops receiving envelopes but keeps the project state.  Idempotent.
    pub fn disable(&mut self)
        ensures
            final(self)@ == (ProjectManagerV { status: PluginStatus::Disabled, ..old(self)@ }),
    {
        self.status = PluginStatus::Disabled;
    }

    /// Handles one delivered envelope, exactly as `pm_step` says.
    pub fn handle_message(
        &mut self,
        bus: &mut Dispatcher,
        project_path: &Option<String>,
        sender: &str,
        action: &str,
        args: StructValue,
    )
        requires
            old(bus).inv(),
            old(bus).busy(),
        ensures
            final(bus).inv(),
            ({
                let st = pm_step(old(self)@, sender@, action@, args@);
                final(self)@ == st.state && bus_effect(
                    *old(bus),
                    *final(bus),
                    st.publishes,
                    st.requests,
                    st.notify,
                )
            }),
    {
        if str_eq(action, "designer.project_manager.management") {
            match decode_pm_command(&args) {
                Option::Some(ProjectManagerCommand::OpenProject { path }) => {
                    let ghost gp = path@;
                    bus.request(HostRequest::ReadProjectFile { path });
                    bus.notify_ui();
                    proof {
                        let st = pm_step(old(self)@, sender@, action@, args@);
                        assert(final(bus).queue_model() =~= old(bus).queue_model() + st.publishes);
                        assert(final(bus).published() =~= old(bus).published() + st.publishes);
                        assert(final(bus).requests_model() =~= old(bus).requests_model()
                            + st.requests);
                    }
                },
                Option::Some(ProjectManagerCommand::CreateProject { path, project }) => {
                    let ghost gp = path@;
                    let ghost gpr = project@;
                    let value = project.encode();
                    let event = ProjectManagerEvent::Created { path: path.clone() };
                    bus.request(HostRequest::WriteProjectFile { path, value });
                    bus.publish("designer.project_manager", &event);
                    bus.notify_ui();
                    proof {
                        let st = pm_step(old(self)@, sender@, action@, args@);
                        assert(st.publishes =~= seq![pm_created_env(gp)]);
                        assert(final(bus).queue_model() =~= old(bus).queue_model() + st.publishes);
                        assert(final(bus).published() =~= old(bus).published() + st.publishes);
                        assert(final(bus).requests_model() =~= old(bus).requests_model()
                            + st.requests);
                    }
                },
                Option::Some(ProjectManagerCommand::CloseProject) => {
                    bus.notify_ui();
                    proof {
                        assert(final(bus).queue_model() =~= old(bus).queue_model() + Seq::<
                            SpecEnvelope,
                        >::empty());
                        assert(final(bus).published() =~= old(bus).published() + Seq::<
                            SpecEnvelope,
                        >::empty());
                        assert(final(bus).requests_model() =~= old(bus).requests_model() + Seq::<
                            HostRequestV,
                        >::empty());
                    }
                },
                Option::None => {
                    proof {
                        lemma_bus_unchanged(*bus);
                    }
                },
            }
        } else if str_eq(action, "designer.project_manager.io") {
            match decode_pm_io(&args) {
                Option::Some(ProjectManagerIo::Loaded { path, project }) => {
                    let ghost gp = path@;
                    let event = ProjectManagerEvent::Opened { path: path.clone() };
                    self.path = Option::Some(path);
                    self.project = Option::Some(project);
                    bus.publish("designer.project_manager", &event);
                    bus.notify_ui();
                    proof {
                        let st = pm_step(old(self)@, sender@, action@, args@);
                        assert(self@ == st.state);
                        assert(st.publishes =~= seq![pm_opened_env(gp)]);
                        assert(final(bus).queue_model() =~= old(bus).queue_model() + st.publishes);
                        assert(final(bus).published() =~= old(bus).published() + st.publishes);
                        assert(final(bus).requests_model() =~= old(bus).requests_model()
                            + st.requests);
                    }
                },
                Option::Some(ProjectManagerIo::LoadFailed { path }) => {
                    let line = LogCommand::Generate {
                        category: "Error".to_owned(),
                        content: "Cannot open project file.".to_owned(),
                    };
                    bus.publish("designer.project_manager", &line);
                    bus.notify_ui();
                    proof {
                        let st = pm_step(old(self)@, sender@, action@, args@);
                        assert(st.publishes =~= seq![pm_load_error_env()]);
                        assert(final(bus).queue_model() =~= old(bus).queue_model() + st.publishes);
                        assert(final(bus).published() =~= old(bus).published() + st.publishes);
                        assert(final(bus).requests_model() =~= old(bus).requests_model()
                            + st.requests);
                    }
                },
                Option::None => {
                    proof {
                        lemma_bus_unchanged(*bus);
                    }
                },
            }
        } else {
            proof {
                lemma_bus_unchanged(*bus);
            }
        }
    }

    /// A read-only structured snapshot for diagnostics and the UI.
    pub fn get_state(&self) -> (r: StructValue)
        ensures
            r@ == pm_snapshot(self@),
    {
        let path_value = match &self.path {
            Option::Some(p) => StructValue::Text(p.clone()),
            Option::None => StructValue::Null,
        };
        let mut recents: Vec<StructValue> = Vec::new();
        let n = self.recent_projects.len();
        let mut i: usize = 0;
        while i < n
            invariant
                n == self.recent_projects@.len(),
                i <= n,
                recents@.len() == i,
                forall|k: int|
                    0 <= k < i ==> #[trigger] recents@[k]@ == SpecValue::Text(
                        self.recent_projects@[k]@,
                    ),
            decreases n - i,
        {
            recents.push(StructValue::Text(self.recent_projects[i].clone()));
            i = i + 1;
        }
        let ghost gr = recents@;
        let mut fields: Vec<(String, StructValue)> = Vec::new();
        fields.push(("path".to_owned(), path_value));
        fields.push(("recent_projects".to_owned(), StructValue::List(recents)));
        fields.push(("status".to_owned(), encode_status(self.status)));
        let ghost gf = fields@;
        let r = StructValue::Object(fields);
        proof {
            lemma_seq_view(gr);
            lemma_fields_view(gf);
            assert(crate::value::seq_view(gr) =~= pm_snapshot(self@)->Object_0[1].1->List_0);
            assert(fields_view(gf) =~= pm_snapshot(self@)->Object_0);
            assert(r@ == pm_snapshot(self@));
        }
        r
    }

    /// Persists the snapshot that `get_state` reports.
    pub fn store_state<S: IPluginStateStorage>(&self, storage: &mut S)
        ensures
            final(storage).stored() == pm_snapshot(self@),
    {
        let snapshot = self.get_state();
        storage.store_state(snapshot);
    }

    /// Restores path, recent projects and status from the last persisted
    /// snapshot; the open project is not persisted and stays closed.  A
    /// snapshot that does not decode leaves the plugin unchanged and reports
    /// the failure instead of aborting.
    pub fn load_state<S: IPluginStateStorage>(&mut self, storage: &mut S) -> (r: Result<
        (),
        CoreError,
    >)
        ensures
            final(storage).stored() == old(storage).stored(),
            match pm_restore(old(storage).stored()) {
                Option::Some(m) => r is Ok && final(self)@ == m,
                Option::None => r == Result::<(), CoreError>::Err(
                    CoreError::StateDeserializationFailed,
                ) && *final(self) == *old(self),
            },
    {
        let value = storage.load_state();
        match decode_pm_snapshot(&value) {
            Option::Some(plugin) => {
                *self = plugin;
                Result::Ok(())
            },
            Option::None => Result::Err(CoreError::StateDeserializationFailed),
        }
    }
}

/// Decodes a persisted project manager snapshot; the result models
/// `pm_restore`.
pub fn decode_pm_snapshot(v: &StructValue) -> (r: Option<ProjectManager>)
    ensures
        match r {
            Option::Some(p) => pm_restore(v@) == Option::Some(p@),
            Option::None => pm_restore(v@) is None,
        },
{
    let pv = match v.get("path") {
        Option::Some(p) => p,
        Option::None => {
            return Option::None;
        },
    };
    let path: Option<String> = match pv.as_text() {
        Option::Some(p) => Option::Some(p.clone()),
        Option::None => {
            match pv {
                StructValue::Null => Option::None,
                _ => {
                    return Option::None;
                },
            }
        },
    };
    let items = match v.get("recent_projects") {
        Option::Some(l) => match l.as_list() {
            Option::Some(items) => items,
            Option::None => {
                return Option::None;
            },
        },
        Option::None => {
            return Option::None;
        },
    };
    let status = match v.get("status") {
        Option::Some(s) => match decode_status(s) {
            Option::Some(st) => st,
            Option::None => {
                return Option::None;
            },
        },
        Option::None => {
            return Option::None;
        },
    };
    proof {
        lemma_seq_view(items@);
    }
    let ghost iv = crate::value::seq_view(items@);
    let mut recent_projects: Vec<String> = Vec::new();
    let n = items.len();
    let mut i: usize = 0;
    while i < n
        invariant
            n == items@.len(),
            i <= n,
            recent_projects@.len() == i,
            iv == crate::value::seq_view(items@),
            iv.len() == items@.len(),
            forall|k: int| 0 <= k < items@.len() ==> #[trigger] iv[k] == items@[k]@,
            forall|k: int|
                0 <= k < i ==> spec_dec_text(iv[k]) == Option::Some(
                    #[trigger] crate::value::texts_view(recent_projects@)[k],
                ),
            pm_restore(v@) == ({
                match pm_restore_recent(iv) {
                    Option::Some(recent) => Option::Some(
                        ProjectManagerV {
                            path: crate::value::opt_text_view(path),
                            recent_projects: recent,
                            status,
                            project: Option::None,
                        },
                    ),
                    Option::None => Option::None::<ProjectManagerV>,
                }
            }),
        decreases n - i,
    {
        let entry = match items[i].as_text() {
            Option::Some(s) => s,
            Option::None => {
                proof {
                    assert(spec_dec_text(iv[i as int]) is None);
                }
                return Option::None;
            },
        };
        let ghost before = crate::value::texts_view(recent_projects@);
        let ghost ge = entry@;
        recent_projects.push(entry.clone());
        proof {
            assert(crate::value::texts_view(recent_projects@) =~= before.push(ge));
        }
        i = i + 1;
    }
    proof {
        lemma_recent_restore(iv, crate::value::texts_view(recent_projects@));
    }
    Option::Some(ProjectManager { path, recent_projects, status, project: Option::None })
}

/// If every element of `items` is the matching text of `texts`, the decoded
/// recent-project list is exactly `texts`.
proof fn lemma_recent_restore(items: Seq<SpecValue>, texts: Seq<Seq<char>>)
    requires
        items.len() == texts.len(),
        forall|k: int|
            0 <= k < items.len() ==> spec_dec_text(#[trigger] items[k]) == Option::Some(texts[k]),
    ensures
        pm_restore_recent(items) == Option::Some(texts),
{
    assert(pm_restore_recent(items)->Some_0 =~= texts);
}

/// Law: restoring the persisted snapshot of any project manager yields its
/// path, recent projects and status, with no project open, so a store
/// followed by a load leaves `get_state` unchanged.
pub proof fn lemma_pm_state_round_trip(m: ProjectManagerV)
    ensures
        pm_restore(pm_snapshot(m)) == Option::Some(
            ProjectManagerV { project: Option::None, ..m },
        ),
{
    reveal_strlit("path");
    reveal_strlit("recent_projects");
    reveal_strlit("status");
    assert("path"@.len() == 4);
    assert("recent_projects"@.len() == 15);
    assert("status"@.len() == 6);
    crate::plugin::lemma_status_round_trip(m.status);
    let fields = pm_snapshot(m)->Object_0;
    lemma_fields_get_found(fields, "path"@, 0);
    lemma_fields_get_found(fields, "recent_projects"@, 1);
    lemma_fields_get_found(fields, "status"@, 2);
    let items = fields[1].1->List_0;
    assert forall|k: int| 0 <= k < items.len() implies spec_dec_text(#[trigger] items[k])
        == Option::Some(m.recent_projects[k]) by {
        assert(items[k] == SpecValue::Text(m.recent_projects[k]));
    }
    lemma_recent_restore(items, m.recent_projects);
}

/// Law: decoding an encoded host answer restores it.
pub proof fn lemma_pm_io_round_trip(e: ProjectManagerIoV)
    ensures
        spec_dec_pm_io(spec_enc_pm_io(e)) == Option::Some(e),
{
    reveal_strlit("Loaded");
    reveal_strlit("LoadFailed");
    reveal_strlit("path");
    reveal_strlit("project");
    assert("Loaded"@.len() == 6);
    assert("LoadFailed"@.len() == 10);
    match e {
        ProjectManagerIoV::Loaded { path, project } => {
            let outer = spec_enc_pm_io(e)->Object_0;
            lemma_fields_get_found(outer, "Loaded"@, 0);
            lemma_fields_get_found(outer[0].1->Object_0, "path"@, 0);
            assert("path"@.len() == 4);
            assert("project"@.len() == 7);
            lemma_fields_get_found(outer[0].1->Object_0, "project"@, 1);
            lemma_project_round_trip(project);
        },
        ProjectManagerIoV::LoadFailed { path } => {
            let outer = spec_enc_pm_io(e)->Object_0;
            lemma_fields_get_missing(outer, "Loaded"@);
            lemma_fields_get_found(outer, "LoadFailed"@, 0);
            lemma_fields_get_found(outer[0].1->Object_0, "path"@, 0);
        },
    }
}

} // verus!
