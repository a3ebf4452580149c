use vstd::prelude::*;

pub mod error;
pub mod orchestrate;
pub mod plan;
pub mod render;
pub mod schema;

use crate::error::ErrorModel;
use crate::orchestrate::{Action, Compiler};
use crate::plan::{required_schema_name, workspace_root_dir};

verus! {

/// Compiles the database package from the app schema: the one subcommand this
/// crate exists for.
pub struct Database {
    /// Prints more information.
    pub verbose: bool,
}

impl Database {
    pub fn is_verbose(&self) -> (r: bool)
        ensures
            r == self.verbose,
    {
        self.verbose
    }

    /// Begins a compile run over the schema package's declared name and its
    /// source text. The schema identity is validated before anything else: a
    /// wrong or missing name aborts the run with no mutating action ever
    /// handed out. The returned machine then drives the run, one action at a
    /// time.
    pub fn run(&self, package_name: Option<String>, schema_source: String) -> (r: (
        Compiler,
        Action,
    ))
        ensures
            r.0.wf(),
            r.0.source@ == schema_source@,
            (match package_name {
                Option::Some(name) => if name@ == required_schema_name() {
                    (r.0.stage is PreparingRoot) && (r.1 matches Action::EnsureDir(p) && p@
                        == workspace_root_dir())
                } else {
                    (r.0.stage is Aborted) && (r.1 matches Action::Abort(e) && e@
                        == ErrorModel::InvalidSchemaName(name@))
                },
                Option::None => (r.0.stage is Aborted) && (r.1 matches Action::Abort(e) && e@
                    == ErrorModel::MissingSchemaName),
            }),
    {
        Compiler::new(package_name, schema_source)
    }
}

} // verus!
