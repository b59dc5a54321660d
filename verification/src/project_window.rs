//! The project-manager window's state: which dialog is open and the draft
//! project description being edited.  Drawing the dialog is the host's
//! work; this module keeps the state the dialog works on and publishes the
//! commands its buttons trigger.

use vstd::prelude::*;

use crate::commands::SpecEnvelope;
use crate::coordinator::DesignerCore;
use crate::coordinator::IHostNotifier;
use crate::plugins::project_manager::pm_action;
use crate::plugins::project_manager::spec_enc_pm_command;
use crate::plugins::project_manager::Project;
use crate::plugins::project_manager::ProjectManagerCommand;
use crate::plugins::project_manager::ProjectManagerCommandV;
use crate::plugins::project_manager::ProjectV;

verus! {

/// Which project dialog is showing.
#[derive(Debug, Clone, Copy, PartialEq, Eq, Structural)]
pub enum WindowStatus {
    Open,
    New,
    Closed,
}

/// The project-manager window: dialog state and the draft description.
#[derive(Debug)]
pub struct ProjectManagerWindow {
    pub status: WindowStatus,
    pub dialog_has_open: bool,
    pub project: Project,
    pub path: Option<String>,
}

/// The mathematical model of a `ProjectManagerWindow`.
#[verifier::ext_equal]
pub ghost struct ProjectManagerWindowV {
    pub status: WindowStatus,
    pub dialog_has_open: bool,
    pub project: ProjectV,
    pub path: Option<Seq<char>>,
}

impl View for ProjectManagerWindow {
    type V = ProjectManagerWindowV;

    open spec fn view(&self) -> ProjectManagerWindowV {
        ProjectManagerWindowV {
            status: self.status,
            dialog_has_open: self.dialog_has_open,
            project: self.project@,
            path: crate::value::opt_text_view(self.path),
        }
    }
}

impl ProjectManagerWindow {
    /// A closed window with a blank draft.
    pub fn new() -> (r: Self)
        ensures
            r@.status == WindowStatus::Closed,
            !r@.dialog_has_open,
            r@.project == (ProjectV {
                name: ""@,
                description: ""@,
                version: (0u32, 0u32, 1u32),
                package_name: ""@,
                author: ""@,
                email: ""@,
            }),
            r@.path is None,
    {
        ProjectManagerWindow {
            dialog_has_open: false,
            status: WindowStatus::Closed,
            project: Project::new_from_empty(),
            path: Option::None,
        }
    }

    /// Opens the create-project dialog for the chosen directory.
    pub fn create_project(&mut self, path: String)
        ensures
            final(self)@ == (ProjectManagerWindowV {
                status: WindowStatus::New,
                dialog_has_open: true,
                project: old(self)@.project,
                path: Option::Some(path@),
            }),
    {
        self.path = Option::Some(path);
        self.dialog_has_open = true;
        self.status = WindowStatus::New;
    }

    /// Publishes the command that opens the project under `path`.
    pub fn open_project<H: IHostNotifier>(core: &mut DesignerCore<H>, path: &str)
        requires
            old(core).inv(),
        ensures
            final(core).inv(),
            ({
                let env = SpecEnvelope {
                    sender: "ProjectManagerWindow"@,
                    action: pm_action(),
                    payload: spec_enc_pm_command(
                        ProjectManagerCommandV::OpenProject { path: path@ },
                    ),
                };
                &&& (old(core).busy() ==> final(core).published() == old(core).published().push(
                    env,
                ))
                &&& (!old(core).busy() ==> {
                    &&& !final(core).busy()
                    &&& old(core).published().push(env).is_prefix_of(final(core).published())
                    &&& crate::dispatch::envs_of(final(core).delivered()) == final(core).published()
                })
            }),
    {
        let command = ProjectManagerCommand::OpenProject { path: path.to_owned() };
        core.publish_message("ProjectManagerWindow", &command);
    }
}

} // verus!
