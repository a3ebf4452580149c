use vstd::prelude::*;
use vstd::pervasive::unreached;
use crate::error::{CompileError, ErrorModel};
use crate::plan::{
    op_at, package_name, package_workspace_path, plan_len, plan_spec, required_schema_name,
    workspace_root_dir, FsOp, FsOpModel,
};
use crate::render::{lib_text, render_lib_content};
use crate::schema::{extract, extract_spec, parsed_items};

verus! {

/// What the runner must do next. Every mutating step of a run is handed out
/// here; the machine itself touches nothing.
pub enum Action {
    /// Create this directory if it is absent; a pre-existing one is fine.
    EnsureDir(String),
    /// Perform this file-system operation of the materialization plan.
    Perform(FsOp),
    /// Append this path to the enclosing workspace manifest.
    RegisterPackage(String),
    /// Build the generated package of this name.
    BuildPackage(String),
    /// The run is complete; report the one success confirmation.
    Finish,
    /// The run is aborted with this error; nothing further follows.
    Abort(CompileError),
}

/// Does performing this action touch the file system, the workspace manifest
/// or the build? The two run-ending reports ask nothing of the runner.
pub open spec fn is_mutating(a: Action) -> bool {
    match a {
        Action::EnsureDir(_) => true,
        Action::Perform(_) => true,
        Action::RegisterPackage(_) => true,
        Action::BuildPackage(_) => true,
        Action::Finish => false,
        Action::Abort(_) => false,
    }
}

/// A run that starts aborted mutates nothing: the abort report asks nothing of
/// the runner, and an aborted machine hands out no further action. Together
/// with `Compiler::new`, this puts the schema-identity check before any
/// file-system mutation.
pub proof fn lemma_abort_mutates_nothing(a: Action)
    requires
        a matches Action::Abort(_),
    ensures
        !is_mutating(a),
{
}

/// What the runner reports back about the action it was handed.
pub enum Event {
    /// The action completed. For a conditional removal, an absent directory
    /// counts as completed.
    Succeeded,
    /// The action failed; carries the reporter's detail.
    Failed(String),
}

/// Where a run stands.
#[derive(Clone, Copy)]
pub enum Stage {
    /// Waiting for the workspace root directory to be ensured.
    PreparingRoot,
    /// Waiting for operation `idx` of the materialization plan.
    Materializing { idx: usize },
    /// Waiting for the workspace manifest to record the package.
    Registering,
    /// Waiting for the package build.
    Building,
    /// The run reached its end successfully.
    Complete,
    /// The run stopped at its first failure.
    Aborted,
}

/// The error a failed plan operation aborts with: the operation's kind picks
/// the variant, its path and the reporter's detail ride along.
pub open spec fn op_error(op: FsOpModel, detail: Seq<char>) -> ErrorModel {
    match op {
        FsOpModel::RemoveDirIfPresent(path) => ErrorModel::DirectoryDeleteError(path, detail),
        FsOpModel::CreateDir(path) => ErrorModel::DirectoryCreateError(path, detail),
        FsOpModel::WriteTemplate(path, _) => ErrorModel::FileWriteError(path, detail),
        FsOpModel::WriteFile(path, _) => ErrorModel::FileWriteError(path, detail),
    }
}

/// Builds the error a failed plan operation aborts with.
fn op_failure(lib: &String, idx: usize, detail: String) -> (e: CompileError)
    requires
        idx < plan_len(),
    ensures
        e@ == op_error(plan_spec(lib@)[idx as int], detail@),
{
    match op_at(lib, idx) {
        FsOp::RemoveDirIfPresent(path) => CompileError::DirectoryDeleteError(path, detail),
        FsOp::CreateDir(path) => CompileError::DirectoryCreateError(path, detail),
        FsOp::WriteTemplate(path, _) => CompileError::FileWriteError(path, detail),
        FsOp::WriteFile(path, _) => CompileError::FileWriteError(path, detail),
    }
}

/// The schema-to-package compile run as a state machine. It validates the
/// schema identity before anything else, then hands out one action at a time:
/// root preparation, the materialization plan in order, registration, build.
/// The first failure aborts the run; nothing is retried and nothing is rolled
/// back.
pub struct Compiler {
    /// Where the run stands.
    pub stage: Stage,
    /// The schema source text, held for extraction.
    pub source: String,
    /// The generated library entry file, set once extraction and rendering
    /// have run.
    pub lib: String,
}

impl Compiler {
    /// A machine whose plan index stays inside the plan.
    pub open spec fn wf(self) -> bool {
        match self.stage {
            Stage::Materializing { idx } => (idx as int) < plan_len(),
            _ => true,
        }
    }

    /// Has the run ended, one way or the other?
    pub open spec fn finished(self) -> bool {
        self.stage is Complete || self.stage is Aborted
    }

    /// Starts a run. The schema package's declared name is validated first,
    /// before any action is handed out: a wrong name or a missing one aborts
    /// the run with no mutating action ever emitted.
    pub fn new(package_name: Option<String>, schema_source: String) -> (r: (Compiler, Action))
        ensures
            r.0.wf(),
            r.0.source@ == schema_source@,
            (match package_name {
                Option::Some(name) => if name@ == required_schema_name() {
                    (r.0.stage is PreparingRoot) && (r.1 matches Action::EnsureDir(p) && p@
                        == workspace_root_dir())
                } else {
                    (r.0.stage is Aborted) && (r.1 matches Action::Abort(e) && e@
                        == ErrorModel::InvalidSchemaName(name@))
                },
                Option::None => (r.0.stage is Aborted) && (r.1 matches Action::Abort(e) && e@
                    == ErrorModel::MissingSchemaName),
            }),
    {
        let required: String = "schema".to_owned();
        match package_name {
            Option::Some(name) => {
                if name == required {
                    let c = Compiler {
                        stage: Stage::PreparingRoot,
                        source: schema_source,
                        lib: String::new(),
                    };
                    (c, Action::EnsureDir("./awto".to_owned()))
                } else {
                    let c = Compiler {
                        stage: Stage::Aborted,
                        source: schema_source,
                        lib: String::new(),
                    };
                    (c, Action::Abort(CompileError::InvalidSchemaName(name)))
                }
            },
            Option::None => {
                let c = Compiler {
                    stage: Stage::Aborted,
                    source: schema_source,
                    lib: String::new(),
                };
                (c, Action::Abort(CompileError::MissingSchemaName))
            },
        }
    }

    /// Feeds the outcome of the last action back in and hands out the next
    /// one. A failure report aborts the run with the error of the stage it
    /// struck; otherwise the run advances: after root preparation the model
    /// list is extracted and the entry file rendered, then the plan runs in
    /// order, then registration, then the build.
    pub fn step(&mut self, event: Event) -> (a: Action)
        requires
            old(self).wf(),
            !old(self).finished(),
        ensures
            final(self).wf(),
            final(self).source@ == old(self).source@,
            !(old(self).stage is PreparingRoot) ==> final(self).lib@ == old(self).lib@,
            (final(self).stage is Aborted) <==> (a matches Action::Abort(_)),
            (final(self).stage is Complete) <==> (a is Finish),
            old(self).stage is PreparingRoot ==> (match event {
                Event::Succeeded => (match parsed_items(old(self).source@) {
                    Option::None => (final(self).stage is Aborted) && (a matches Action::Abort(e)
                        && e@ matches ErrorModel::ParseError(_)),
                    Option::Some(found) => (match extract_spec(found) {
                        Option::None => (final(self).stage is Aborted) && (a matches
                        Action::Abort(e) && e@ == ErrorModel::NoRegistrationFound),
                        Option::Some(names) => (final(self).stage matches Stage::Materializing {
                            idx } && idx == 0) && final(self).lib@ == lib_text(names) && (a
                            matches Action::Perform(op) && op@ == plan_spec(lib_text(names))[0]),
                    }),
                }),
                Event::Failed(detail) => (final(self).stage is Aborted) && (a matches
                Action::Abort(e) && e@ == ErrorModel::DirectoryCreateError(
                    workspace_root_dir(),
                    detail@,
                )),
            }),
            old(self).stage matches Stage::Materializing { idx } ==> (match event {
                Event::Succeeded => if idx as int + 1 < plan_len() {
                    (final(self).stage matches Stage::Materializing { idx: next } && next == idx
                        + 1) && (a matches Action::Perform(op) && op@ == plan_spec(
                        old(self).lib@,
                    )[idx as int + 1])
                } else {
                    (final(self).stage is Registering) && (a matches Action::RegisterPackage(p)
                        && p@ == package_workspace_path())
                },
                Event::Failed(detail) => (final(self).stage is Aborted) && (a matches
                Action::Abort(e) && e@ == op_error(plan_spec(old(self).lib@)[idx as int], detail@)),
            }),
            old(self).stage is Registering ==> (match event {
                Event::Succeeded => (final(self).stage is Building) && (a matches
                Action::BuildPackage(name) && name@ == package_name()),
                Event::Failed(detail) => (final(self).stage is Aborted) && (a matches
                Action::Abort(e) && e@ == ErrorModel::WorkspaceRegistrationError(detail@)),
            }),
            old(self).stage is Building ==> (match event {
                Event::Succeeded => (final(self).stage is Complete) && (a is Finish),
                Event::Failed(detail) => (final(self).stage is Aborted) && (a matches
                Action::Abort(e) && e@ == ErrorModel::BuildError(detail@)),
            }),
    {
        let st = self.stage;
        match st {
            Stage::PreparingRoot => match event {
                Event::Succeeded => match extract(self.source.as_str()) {
                    Ok(models) => {
                        self.lib = render_lib_content(&models);
                        self.stage = Stage::Materializing { idx: 0 };
                        Action::Perform(op_at(&self.lib, 0))
                    },
                    Err(e) => {
                        self.stage = Stage::Aborted;
                        Action::Abort(e)
                    },
                },
                Event::Failed(detail) => {
                    self.stage = Stage::Aborted;
                    Action::Abort(CompileError::DirectoryCreateError("./awto".to_owned(), detail))
                },
            },
            Stage::Materializing { idx } => match event {
                Event::Succeeded => {
                    if idx + 1 < 6 {
                        self.stage = Stage::Materializing { idx: idx + 1 };
                        Action::Perform(op_at(&self.lib, idx + 1))
                    } else {
                        self.stage = Stage::Registering;
                        Action::RegisterPackage("awto/database".to_owned())
                    }
                },
                Event::Failed(detail) => {
                    self.stage = Stage::Aborted;
                    Action::Abort(op_failure(&self.lib, idx, detail))
                },
            },
            Stage::Registering => match event {
                Event::Succeeded => {
                    self.stage = Stage::Building;
                    Action::BuildPackage("database".to_owned())
                },
                Event::Failed(detail) => {
                    self.stage = Stage::Aborted;
                    Action::Abort(CompileError::WorkspaceRegistrationError(detail))
                },
            },
            Stage::Building => match event {
                Event::Succeeded => {
                    self.stage = Stage::Complete;
                    Action::Finish
                },
                Event::Failed(detail) => {
                    self.stage = Stage::Aborted;
                    Action::Abort(CompileError::BuildError(detail))
                },
            },
            Stage::Complete => unreached(),
            Stage::Aborted => unreached(),
        }
    }
}

} // verus!
