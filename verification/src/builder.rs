//! The image-build pipeline.
//!
//! A build runs five steps strictly in order: create the staging directory,
//! create the `boot/grub` subtree, write the GRUB configuration, copy the
//! kernel binary into the tree, and invoke the external ISO-authoring tool.
//! The library decides the pipeline; the surrounding binary performs each
//! [`Action`] (a file-system operation or the tool invocation) and reports a
//! [`StepOutcome`] back.  Every failure aborts the build at once with a
//! tagged [`DiskImageError`]; nothing is retried or downgraded.

use vstd::prelude::*;
use vstd::string::StringExecFns;

use crate::config::grub_cfg;
use crate::config::grub_cfg_text;

verus! {

/// The four inputs of one build: where the image goes, where the tree is
/// staged, where the kernel binary comes from, and the menu-entry label.
pub struct BuildRequest {
    /// Path the final ISO image is written to.
    pub output_image_path: String,
    /// Root of the staged directory tree.
    pub stage_dir_path: String,
    /// Path of the kernel binary to copy into the tree.
    pub kernel_binary_path: String,
    /// Display title of the single menu entry, embedded verbatim.
    pub image_label: String,
}

/// The mathematical value of a [`BuildRequest`]: its four paths and label as
/// character sequences.
pub struct BuildRequestView {
    pub output_image_path: Seq<char>,
    pub stage_dir_path: Seq<char>,
    pub kernel_binary_path: Seq<char>,
    pub image_label: Seq<char>,
}

impl View for BuildRequest {
    type V = BuildRequestView;

    open spec fn view(&self) -> BuildRequestView {
        BuildRequestView {
            output_image_path: self.output_image_path@,
            stage_dir_path: self.stage_dir_path@,
            kernel_binary_path: self.kernel_binary_path@,
            image_label: self.image_label@,
        }
    }
}

/// One operation the pipeline asks the surrounding binary to perform.
#[derive(Debug)]
pub enum Action {
    /// Create `path` as a directory; report `AlreadyExists` if it is one.
    CreateDir { path: String },
    /// Create `path` as a directory, with its intermediate directories.
    CreateDirAll { path: String },
    /// Create or truncate the file at `path` and write `contents` to it.
    WriteFile { path: String, contents: String },
    /// Copy the file at `from` to `to`, overwriting any file there.
    CopyFile { from: String, to: String },
    /// Run the ISO-authoring tool: write the image to `output_path` from the
    /// staged tree at `stage_dir`, capturing exit status and standard error.
    RunTool { output_path: String, stage_dir: String },
}

/// What performing an [`Action`] came to.
#[derive(Debug)]
pub enum StepOutcome {
    /// The file-system operation succeeded.
    Succeeded,
    /// Directory creation found the directory already present.
    AlreadyExists,
    /// The file-system operation failed; `error` describes the OS error.
    Failed { error: String },
    /// The tool ran to completion with the given exit success and captured
    /// standard-error bytes.
    ToolExited { success: bool, stderr: Vec<u8> },
    /// The tool could not be launched at all; `error` describes the OS error.
    ToolLaunchFailed { error: String },
}

/// A failed build, tagged by what went wrong.
#[derive(Debug)]
pub enum DiskImageError {
    /// A file-system operation or the tool launch failed: a fixed operation
    /// label and the underlying OS error.
    Io { message: String, error: String },
    /// The tool launched but exited with a non-success status; holds its
    /// captured standard-error bytes verbatim.
    ToolFailed { stderr: Vec<u8> },
}

/// Where the pipeline stands: one phase per step, then done or failed.
#[derive(Debug, Clone, Copy, PartialEq, Eq, Structural)]
pub enum Phase {
    /// Create the staging directory.
    StageDir,
    /// Create the `boot/grub` subtree.
    GrubDir,
    /// Write `boot/grub/grub.cfg`.
    Config,
    /// Copy the kernel binary to `boot/kernel.elf`.
    Kernel,
    /// Invoke the ISO-authoring tool.
    Tool,
    /// The build succeeded.
    Done,
    /// The build aborted on a failed step.
    Failed,
}

/// A phase that still has a step to perform.
pub open spec fn phase_active(p: Phase) -> bool {
    !(p is Done) && !(p is Failed)
}

/// Which outcomes can come back from the step of phase `p`: directory
/// creation may find the directory present, only the tool step reports an
/// exit status or a launch failure, and terminal phases have no step.
pub open spec fn outcome_fits(p: Phase, o: StepOutcome) -> bool {
    match p {
        Phase::StageDir | Phase::GrubDir => o is Succeeded || o is AlreadyExists || o is Failed,
        Phase::Config | Phase::Kernel => o is Succeeded || o is Failed,
        Phase::Tool => o is ToolExited || o is ToolLaunchFailed,
        Phase::Done | Phase::Failed => false,
    }
}

/// Whether outcome `o` aborts the build at phase `p`.  A directory already
/// present is success; a non-success tool exit or any failure aborts.
pub open spec fn step_fails(p: Phase, o: StepOutcome) -> bool {
    match o {
        StepOutcome::Succeeded => false,
        StepOutcome::AlreadyExists => false,
        StepOutcome::Failed { .. } => true,
        StepOutcome::ToolExited { success, .. } => !success,
        StepOutcome::ToolLaunchFailed { .. } => true,
    }
}

/// The phase after outcome `o` at phase `p`: the next step in order on
/// success, `Failed` on an aborting outcome, terminal phases unchanged.
pub open spec fn phase_after(p: Phase, o: StepOutcome) -> Phase {
    if step_fails(p, o) {
        Phase::Failed
    } else {
        match p {
            Phase::StageDir => Phase::GrubDir,
            Phase::GrubDir => Phase::Config,
            Phase::Config => Phase::Kernel,
            Phase::Kernel => Phase::Tool,
            Phase::Tool => Phase::Done,
            Phase::Done => Phase::Done,
            Phase::Failed => Phase::Failed,
        }
    }
}

/// The fixed operation label carried by the I/O error of phase `p`'s step.
pub open spec fn io_label(p: Phase) -> Seq<char> {
    match p {
        Phase::StageDir => "failed to create isodir"@,
        Phase::GrubDir => "failed to create boot/grub"@,
        Phase::Config => "failed to write grub.cfg"@,
        Phase::Kernel => "failed to create kernel.elf"@,
        Phase::Tool => "failed to execute grub-mkrescue command"@,
        Phase::Done | Phase::Failed => Seq::empty(),
    }
}

/// The `boot/grub` subtree under the staging root.
pub open spec fn grub_dir_path(stage: Seq<char>) -> Seq<char> {
    stage + "/boot/grub"@
}

/// The generated configuration file under the staging root.
pub open spec fn cfg_path(stage: Seq<char>) -> Seq<char> {
    stage + "/boot/grub/grub.cfg"@
}

/// The staged kernel binary under the staging root.
pub open spec fn kernel_elf_path(stage: Seq<char>) -> Seq<char> {
    stage + "/boot/kernel.elf"@
}

/// The build pipeline: the request and the phase it has reached.
pub struct ImageBuilder {
    /// The inputs of this build.
    pub request: BuildRequest,
    /// The step the pipeline stands before, or a terminal phase.
    pub phase: Phase,
}

impl ImageBuilder {
    /// Starts a build of `request`, standing before the first step.
    pub fn new(request: BuildRequest) -> (r: ImageBuilder)
        ensures
            r.request@ == request@,
            r.phase == Phase::StageDir,
    {
        ImageBuilder { request, phase: Phase::StageDir }
    }

    /// The action of the step the pipeline stands before, or `None` once the
    /// build is done or has failed.  Each phase asks for exactly the
    /// operation of its step, on the paths of the request; the configuration
    /// step asks to write exactly the generated text for the request's label.
    pub fn next_action(&self) -> (r: Option<Action>)
        ensures
            phase_active(self.phase) <==> r is Some,
            match self.phase {
                Phase::StageDir => r matches Some(Action::CreateDir { path }) && path@
                    == self.request.stage_dir_path@,
                Phase::GrubDir => r matches Some(Action::CreateDirAll { path }) && path@
                    == grub_dir_path(self.request.stage_dir_path@),
                Phase::Config => r matches Some(Action::WriteFile { path, contents }) && path@
                    == cfg_path(self.request.stage_dir_path@) && contents@ == grub_cfg_text(
                    self.request.image_label@,
                ),
                Phase::Kernel => r matches Some(Action::CopyFile { from, to }) && from@
                    == self.request.kernel_binary_path@ && to@ == kernel_elf_path(
                    self.request.stage_dir_path@,
                ),
                Phase::Tool => r matches Some(Action::RunTool { output_path, stage_dir })
                    && output_path@ == self.request.output_image_path@ && stage_dir@
                    == self.request.stage_dir_path@,
                Phase::Done | Phase::Failed => r is None,
            },
    {
        match self.phase {
            Phase::StageDir => Some(
                Action::CreateDir { path: self.request.stage_dir_path.clone() },
            ),
            Phase::GrubDir => {
                let path = self.request.stage_dir_path.clone().concat("/boot/grub");
                Some(Action::CreateDirAll { path })
            },
            Phase::Config => {
                let path = self.request.stage_dir_path.clone().concat("/boot/grub/grub.cfg");
                let contents = grub_cfg(self.request.image_label.as_str());
                Some(Action::WriteFile { path, contents })
            },
            Phase::Kernel => {
                let to = self.request.stage_dir_path.clone().concat("/boot/kernel.elf");
                Some(Action::CopyFile { from: self.request.kernel_binary_path.clone(), to })
            },
            Phase::Tool => Some(
                Action::RunTool {
                    output_path: self.request.output_image_path.clone(),
                    stage_dir: self.request.stage_dir_path.clone(),
                },
            ),
            Phase::Done | Phase::Failed => None,
        }
    }

    /// Takes the outcome of the step the pipeline stands before.  On success
    /// (a directory already present counts as success) the pipeline moves to
    /// the next step and returns `Ok`; on an aborting outcome it moves to
    /// `Failed` and returns the matching error: an I/O error carrying the
    /// step's fixed operation label and the reported OS error, or, for a
    /// non-success tool exit, a tool failure carrying the captured
    /// standard-error bytes verbatim.  The request is never changed.
    pub fn apply(&mut self, outcome: StepOutcome) -> (r: Result<(), DiskImageError>)
        requires
            phase_active(old(self).phase),
            outcome_fits(old(self).phase, outcome),
        ensures
            final(self).request@ == old(self).request@,
            final(self).phase == phase_after(old(self).phase, outcome),
            r is Ok <==> !step_fails(old(self).phase, outcome),
            match outcome {
                StepOutcome::Failed { error } => r matches Err(
                    DiskImageError::Io { message, error: e },
                ) && message@ == io_label(old(self).phase) && e@ == error@,
                StepOutcome::ToolLaunchFailed { error } => r matches Err(
                    DiskImageError::Io { message, error: e },
                ) && message@ == io_label(Phase::Tool) && e@ == error@,
                StepOutcome::ToolExited { success, stderr } => !success ==> (r matches Err(
                    DiskImageError::ToolFailed { stderr: s },
                ) && s@ == stderr@),
                StepOutcome::Succeeded | StepOutcome::AlreadyExists => r is Ok,
            },
    {
        match outcome {
            StepOutcome::Succeeded | StepOutcome::AlreadyExists => {
                self.phase = match self.phase {
                    Phase::StageDir => Phase::GrubDir,
                    Phase::GrubDir => Phase::Config,
                    Phase::Config => Phase::Kernel,
                    Phase::Kernel => Phase::Tool,
                    Phase::Tool => Phase::Done,
                    Phase::Done => Phase::Done,
                    Phase::Failed => Phase::Failed,
                };
                Ok(())
            },
            StepOutcome::Failed { error } => {
                let message = match self.phase {
                    Phase::StageDir => String::from_str("failed to create isodir"),
                    Phase::GrubDir => String::from_str("failed to create boot/grub"),
                    Phase::Config => String::from_str("failed to write grub.cfg"),
                    Phase::Kernel => String::from_str("failed to create kernel.elf"),
                    Phase::Tool | Phase::Done | Phase::Failed => String::new(),
                };
                self.phase = Phase::Failed;
                Err(DiskImageError::Io { message, error })
            },
            StepOutcome::ToolExited { success, stderr } => {
                if success {
                    self.phase = Phase::Done;
                    Ok(())
                } else {
                    self.phase = Phase::Failed;
                    Err(DiskImageError::ToolFailed { stderr })
                }
            },
            StepOutcome::ToolLaunchFailed { error } => {
                self.phase = Phase::Failed;
                Err(
                    DiskImageError::Io {
                        message: String::from_str("failed to execute grub-mkrescue command"),
                        error,
                    },
                )
            },
        }
    }
}

/// Idempotent staging: a directory-creation step that finds its directory
/// already present succeeds and the pipeline moves on to the next step, so
/// running the staging steps over an already staged tree never errors.
pub proof fn lemma_idempotent_staging()
    ensures
        !step_fails(Phase::StageDir, StepOutcome::AlreadyExists),
        phase_after(Phase::StageDir, StepOutcome::AlreadyExists) == Phase::GrubDir,
        !step_fails(Phase::GrubDir, StepOutcome::AlreadyExists),
        phase_after(Phase::GrubDir, StepOutcome::AlreadyExists) == Phase::Config,
{
}

/// Failure short-circuits: a failed kernel copy aborts the build, the
/// pipeline reaches its failed phase, and that phase is terminal — it has no
/// step, so in particular the tool invocation is never issued after it.
pub proof fn lemma_failure_short_circuits(error: String)
    ensures
        step_fails(Phase::Kernel, StepOutcome::Failed { error }),
        phase_after(Phase::Kernel, StepOutcome::Failed { error }) == Phase::Failed,
        !phase_active(Phase::Failed),
        io_label(Phase::Kernel) == "failed to create kernel.elf"@,
{
}

} // verus!
