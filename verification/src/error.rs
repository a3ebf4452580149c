use vstd::prelude::*;
use vstd::string::StringExecFns;

verus! {

/// Why a compile run stops. Every variant carries the path or identifier
/// involved, so a report is actionable on its own; the run never retries.
pub enum CompileError {
    /// The schema package declares a name other than the required `schema`;
    /// carries the declared name.
    InvalidSchemaName(String),
    /// The schema package declares no name at all.
    MissingSchemaName,
    /// The schema source is not a well-formed module; carries the parser's
    /// diagnostic.
    ParseError(String),
    /// No registration invocation stands among the schema's top-level items.
    NoRegistrationFound,
    /// A directory could not be removed; carries its path and the reporter's
    /// detail.
    DirectoryDeleteError(String, String),
    /// A directory could not be created; carries its path and the reporter's
    /// detail.
    DirectoryCreateError(String, String),
    /// A file could not be written; carries its path and the reporter's
    /// detail.
    FileWriteError(String, String),
    /// The workspace manifest could not record the generated package; carries
    /// the registrar's report.
    WorkspaceRegistrationError(String),
    /// The build of the generated package failed; carries the build tool's
    /// report.
    BuildError(String),
}

/// Spec-level image of a `CompileError`: the same shape over `Seq<char>`.
pub enum ErrorModel {
    InvalidSchemaName(Seq<char>),
    MissingSchemaName,
    ParseError(Seq<char>),
    NoRegistrationFound,
    DirectoryDeleteError(Seq<char>, Seq<char>),
    DirectoryCreateError(Seq<char>, Seq<char>),
    FileWriteError(Seq<char>, Seq<char>),
    WorkspaceRegistrationError(Seq<char>),
    BuildError(Seq<char>),
}

impl View for CompileError {
    type V = ErrorModel;

    open spec fn view(&self) -> ErrorModel {
        match self {
            CompileError::InvalidSchemaName(name) => ErrorModel::InvalidSchemaName(name@),
            CompileError::MissingSchemaName => ErrorModel::MissingSchemaName,
            CompileError::ParseError(diag) => ErrorModel::ParseError(diag@),
            CompileError::NoRegistrationFound => ErrorModel::NoRegistrationFound,
            CompileError::DirectoryDeleteError(path, detail) => ErrorModel::DirectoryDeleteError(
                path@,
                detail@,
            ),
            CompileError::DirectoryCreateError(path, detail) => ErrorModel::DirectoryCreateError(
                path@,
                detail@,
            ),
            CompileError::FileWriteError(path, detail) => ErrorModel::FileWriteError(
                path@,
                detail@,
            ),
            CompileError::WorkspaceRegistrationError(detail) => ErrorModel::WorkspaceRegistrationError(
                detail@,
            ),
            CompileError::BuildError(detail) => ErrorModel::BuildError(detail@),
        }
    }
}

/// The guidance shown when no registration invocation is found: it spells out
/// the exact invocation syntax expected.
pub open spec fn registration_help() -> Seq<char> {
    "no schemas registered with the 'awto::register_schemas!' macro\n\n   Schemas must be registered:\n      `awto::register_schemas!(SchemaOne, SchemaTwo)`"@
}

/// The report a run prints for each way it can stop.
pub open spec fn message_spec(e: ErrorModel) -> Seq<char> {
    match e {
        ErrorModel::InvalidSchemaName(name) => "schema package must be named 'schema' but is named '"@
            + name + "'"@,
        ErrorModel::MissingSchemaName => "schema package must be named 'schema'"@,
        ErrorModel::ParseError(diag) => "could not parse schema source code: "@ + diag,
        ErrorModel::NoRegistrationFound => registration_help(),
        ErrorModel::DirectoryDeleteError(path, detail) => "could not delete directory '"@ + path
            + "': "@ + detail,
        ErrorModel::DirectoryCreateError(path, detail) => "could not create directory '"@ + path
            + "': "@ + detail,
        ErrorModel::FileWriteError(path, detail) => "could not write file '"@ + path + "': "@
            + detail,
        ErrorModel::WorkspaceRegistrationError(detail) => "could not register package in workspace: "@
            + detail,
        ErrorModel::BuildError(detail) => "could not build package: "@ + detail,
    }
}

impl CompileError {
    /// Renders the error as one line of text for the user.
    pub fn message(&self) -> (r: String)
        ensures
            r@ == message_spec(self@),
    {
        match self {
            CompileError::InvalidSchemaName(name) => {
                let mut out: String = "schema package must be named 'schema' but is named '".to_owned();
                out.append(name.as_str());
                out.append("'");
                out
            },
            CompileError::MissingSchemaName => "schema package must be named 'schema'".to_owned(),
            CompileError::ParseError(diag) => {
                let mut out: String = "could not parse schema source code: ".to_owned();
                out.append(diag.as_str());
                out
            },
            CompileError::NoRegistrationFound => "no schemas registered with the 'awto::register_schemas!' macro\n\n   Schemas must be registered:\n      `awto::register_schemas!(SchemaOne, SchemaTwo)`".to_owned(),
            CompileError::DirectoryDeleteError(path, detail) => {
                let mut out: String = "could not delete directory '".to_owned();
                out.append(path.as_str());
                out.append("': ");
                out.append(detail.as_str());
                out
            },
            CompileError::DirectoryCreateError(path, detail) => {
                let mut out: String = "could not create directory '".to_owned();
                out.append(path.as_str());
                out.append("': ");
                out.append(detail.as_str());
                out
            },
            CompileError::FileWriteError(path, detail) => {
                let mut out: String = "could not write file '".to_owned();
                out.append(path.as_str());
                out.append("': ");
                out.append(detail.as_str());
                out
            },
            CompileError::WorkspaceRegistrationError(detail) => {
                let mut out: String = "could not register package in workspace: ".to_owned();
                out.append(detail.as_str());
                out
            },
            CompileError::BuildError(detail) => {
                let mut out: String = "could not build package: ".to_owned();
                out.append(detail.as_str());
                out
            },
        }
    }
}

} // verus!
