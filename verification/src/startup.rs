//! The auto-startup registration model.
//!
//! Registration state lives outside the process, in the task scheduler and
//! the startup folder; this module models the state those facilities hold,
//! together with the persisted installation path. Each command is a
//! transition on the model with an exact contract; the host layer performs
//! the matching scheduler and filesystem work and feeds the outcomes in as
//! plain flags.

use vstd::prelude::*;
use vstd::string::*;
use crate::error::Error;
use crate::friendly_names::{trim_of, trim_string};

verus! {

/// How the application got registered for launch at logon.
#[derive(Clone, Copy, Debug, PartialEq, Eq, Structural)]
pub enum RegistrationMethod {
    /// A logon-triggered scheduled task.
    TaskScheduler,
    /// A shortcut in the startup folder; the explicit fallback.
    StartupFolder,
}

impl RegistrationMethod {
    /// The stable method string reported to the UI.
    pub fn name(&self) -> (r: &'static str)
        ensures
            r@ == self.name_spec(),
    {
        match self {
            RegistrationMethod::TaskScheduler => "task_scheduler",
            RegistrationMethod::StartupFolder => "startup_folder",
        }
    }

    /// What `name` returns for each method.
    pub open spec fn name_spec(&self) -> Seq<char> {
        match self {
            RegistrationMethod::TaskScheduler => "task_scheduler"@,
            RegistrationMethod::StartupFolder => "startup_folder"@,
        }
    }
}

/// The registration state the operating system holds, mirrored as plain
/// values. Nothing here is cached across commands in the real system; the
/// host layer re-reads the facilities and rebuilds this record on demand.
pub struct StartupState {
    /// A scheduled task for this application exists.
    pub task_registered: bool,
    /// A startup-folder shortcut for this application exists.
    pub shortcut_present: bool,
    /// The persisted installation path, when the path file exists.
    pub stored_path: Option<String>,
    /// The task-scheduling facility answers probes.
    pub scheduler_available: bool,
    /// The startup folder can be resolved.
    pub startup_folder_available: bool,
}

/// Whether any registration is in force: a scheduled task or a shortcut.
pub open spec fn auto_startup_active(s: StartupState) -> bool {
    s.task_registered || s.shortcut_present
}

/// What `enable_auto_startup` reports: a failed path write wins over a
/// missing executable, which wins over a failed registration command,
/// which wins over success.
pub open spec fn enable_result(write_ok: bool, exe_present: bool, register_ok: bool) -> Result<
    RegistrationMethod,
    Error,
> {
    if !write_ok {
        Err(Error::IOFailure)
    } else if !exe_present {
        Err(Error::NotFound)
    } else if !register_ok {
        Err(Error::ExternalCommandFailure)
    } else {
        Ok(RegistrationMethod::TaskScheduler)
    }
}

/// What `create_startup_shortcut` reports.
pub open spec fn shortcut_result(create_ok: bool) -> Result<RegistrationMethod, Error> {
    if create_ok {
        Ok(RegistrationMethod::StartupFolder)
    } else {
        Err(Error::ExternalCommandFailure)
    }
}

impl StartupState {
    /// Mirrors what the facilities report right now.
    pub fn new(
        task_registered: bool,
        shortcut_present: bool,
        stored_path: Option<String>,
        scheduler_available: bool,
        startup_folder_available: bool,
    ) -> (r: StartupState)
        ensures
            r.task_registered == task_registered,
            r.shortcut_present == shortcut_present,
            r.stored_path == stored_path,
            r.scheduler_available == scheduler_available,
            r.startup_folder_available == startup_folder_available,
    {
        StartupState {
            task_registered,
            shortcut_present,
            stored_path,
            scheduler_available,
            startup_folder_available,
        }
    }

    /// Whether any registration is in force; the scheduled task is
    /// checked first, the startup-folder shortcut second.
    pub fn check_auto_startup(&self) -> (r: bool)
        ensures
            r == auto_startup_active(*self),
    {
        if self.task_registered {
            true
        } else {
            self.shortcut_present
        }
    }

    /// Capability probe for the task-scheduling facility.
    pub fn check_task_scheduler_available(&self) -> (r: bool)
        ensures
            r == self.scheduler_available,
    {
        self.scheduler_available
    }

    /// Capability probe for the startup folder.
    pub fn check_startup_folder_available(&self) -> (r: bool)
        ensures
            r == self.startup_folder_available,
    {
        self.startup_folder_available
    }

    /// Persists the live executable's directory as the durable
    /// installation path, overwriting any previous value. The host layer
    /// performs the file write and reports whether it succeeded; a failed
    /// write is an `IOFailure` and leaves the old value in force.
    pub fn store_app_path(&mut self, live_dir: &String, write_ok: bool) -> (r: Result<(), Error>)
        ensures
            r == if write_ok {
                Ok::<(), Error>(())
            } else {
                Err::<(), Error>(Error::IOFailure)
            },
            final(self).stored_path == if write_ok {
                Some(*live_dir)
            } else {
                old(self).stored_path
            },
            final(self).task_registered == old(self).task_registered,
            final(self).shortcut_present == old(self).shortcut_present,
            final(self).scheduler_available == old(self).scheduler_available,
            final(self).startup_folder_available == old(self).startup_folder_available,
    {
        if !write_ok {
            return Err(Error::IOFailure);
        }
        self.stored_path = Some(live_dir.clone());
        Ok(())
    }

    /// The installation path later registration steps use: the persisted
    /// path, trimmed, when the path file exists; otherwise the live
    /// executable's directory.
    pub fn resolve_install_path(&self, live_dir: &String) -> (r: String)
        ensures
            match self.stored_path {
                Some(p) => r@ == trim_of(p@),
                None => r@ == live_dir@,
            },
    {
        match &self.stored_path {
            Some(p) => trim_string(p),
            None => live_dir.clone(),
        }
    }

    /// Registers the application for launch at logon: persists the live
    /// executable's directory first, fails with `NotFound` when the
    /// executable is missing there, then registers the logon-triggered
    /// scheduled task; a failed registration command is a hard failure
    /// with no automatic fallback. The host layer reports whether the
    /// path write succeeded, whether the executable was found, and
    /// whether the registration command succeeded.
    pub fn enable_auto_startup(
        &mut self,
        live_dir: &String,
        write_ok: bool,
        exe_present: bool,
        register_ok: bool,
    ) -> (r: Result<RegistrationMethod, Error>)
        ensures
            r == enable_result(write_ok, exe_present, register_ok),
            final(self).stored_path == if write_ok {
                Some(*live_dir)
            } else {
                old(self).stored_path
            },
            final(self).task_registered == if write_ok && exe_present && register_ok {
                true
            } else {
                old(self).task_registered
            },
            final(self).shortcut_present == old(self).shortcut_present,
            final(self).scheduler_available == old(self).scheduler_available,
            final(self).startup_folder_available == old(self).startup_folder_available,
    {
        if !write_ok {
            return Err(Error::IOFailure);
        }
        self.stored_path = Some(live_dir.clone());
        if !exe_present {
            return Err(Error::NotFound);
        }
        if !register_ok {
            return Err(Error::ExternalCommandFailure);
        }
        self.task_registered = true;
        Ok(RegistrationMethod::TaskScheduler)
    }

    /// Best-effort removal of both the scheduled task and the
    /// startup-folder shortcut; absence of either is not an error, so
    /// this never fails.
    pub fn disable_auto_startup(&mut self) -> (r: Result<(), Error>)
        ensures
            r is Ok,
            final(self).task_registered == false,
            final(self).shortcut_present == false,
            final(self).stored_path == old(self).stored_path,
            final(self).scheduler_available == old(self).scheduler_available,
            final(self).startup_folder_available == old(self).startup_folder_available,
    {
        self.task_registered = false;
        self.shortcut_present = false;
        Ok(())
    }

    /// The explicit fallback: creates a startup-folder shortcut pointing
    /// at the stored installation path. The host layer reports whether
    /// shortcut creation succeeded.
    pub fn create_startup_shortcut(&mut self, create_ok: bool) -> (r: Result<
        RegistrationMethod,
        Error,
    >)
        ensures
            r == shortcut_result(create_ok),
            final(self).shortcut_present == if create_ok {
                true
            } else {
                old(self).shortcut_present
            },
            final(self).task_registered == old(self).task_registered,
            final(self).stored_path == old(self).stored_path,
            final(self).scheduler_available == old(self).scheduler_available,
            final(self).startup_folder_available == old(self).startup_folder_available,
    {
        if create_ok {
            self.shortcut_present = true;
            Ok(RegistrationMethod::StartupFolder)
        } else {
            Err(Error::ExternalCommandFailure)
        }
    }
}

/// Immediately after a successful `enable_auto_startup` — one whose
/// result is `Ok` — the auto-startup probe reports true.
pub proof fn lemma_enable_then_check(
    pre: StartupState,
    post: StartupState,
    write_ok: bool,
    exe_present: bool,
    register_ok: bool,
    r: Result<RegistrationMethod, Error>,
)
    requires
        r == enable_result(write_ok, exe_present, register_ok),
        r is Ok,
        post.task_registered == if write_ok && exe_present && register_ok {
            true
        } else {
            pre.task_registered
        },
    ensures
        auto_startup_active(post),
{
}

/// Immediately after `disable_auto_startup` the auto-startup probe
/// reports false.
pub proof fn lemma_disable_then_check(post: StartupState)
    requires
        !post.task_registered,
        !post.shortcut_present,
    ensures
        !auto_startup_active(post),
{
}

} // verus!
