use std::collections::BTreeMap;

use awto_compile::error::CompileError;
use awto_compile::orchestrate::{Action, Compiler, Event};
use awto_compile::plan::{FsOp, Template};
use awto_compile::Database;

const MANIFEST_TEXT: &str = "[package]\nname = \"database\"\n";
const BUILD_TEXT: &str = "fn main() {}\n";

type FakeFs = BTreeMap<String, String>;

fn apply_fs_op(fs: &mut FakeFs, op: &FsOp) {
    match op {
        FsOp::RemoveDirIfPresent(dir) => {
            let prefix = format!("{}/", dir);
            fs.retain(|path, _| path != dir && !path.starts_with(&prefix));
        }
        FsOp::CreateDir(_) => {}
        FsOp::WriteTemplate(path, Template::Manifest) => {
            fs.insert(path.clone(), MANIFEST_TEXT.to_owned());
        }
        FsOp::WriteTemplate(path, Template::BuildStep) => {
            fs.insert(path.clone(), BUILD_TEXT.to_owned());
        }
        FsOp::WriteFile(path, text) => {
            fs.insert(path.clone(), text.clone());
        }
    }
}

fn op_tag(op: &FsOp) -> String {
    match op {
        FsOp::RemoveDirIfPresent(path) => format!("remove:{}", path),
        FsOp::CreateDir(path) => format!("create:{}", path),
        FsOp::WriteTemplate(path, _) => format!("write:{}", path),
        FsOp::WriteFile(path, _) => format!("write:{}", path),
    }
}

/// Drives one compile run against the fake file system. An action whose tag
/// equals `fail_on` is reported as failed with the detail `"boom"`; every
/// other action is performed and reported as succeeded. Returns the log of
/// performed actions on success.
fn drive(
    name: Option<&str>,
    source: &str,
    fs: &mut FakeFs,
    fail_on: Option<&str>,
) -> Result<Vec<String>, CompileError> {
    let (mut compiler, mut action) = Compiler::new(name.map(|n| n.to_owned()), source.to_owned());
    let mut log: Vec<String> = Vec::new();
    loop {
        match action {
            Action::Finish => return Ok(log),
            Action::Abort(e) => return Err(e),
            other => {
                let tag = match &other {
                    Action::EnsureDir(path) => format!("ensure:{}", path),
                    Action::Perform(op) => op_tag(op),
                    Action::RegisterPackage(path) => format!("register:{}", path),
                    Action::BuildPackage(pkg) => format!("build:{}", pkg),
                    Action::Finish | Action::Abort(_) => unreachable!(),
                };
                let event = if Some(tag.as_str()) == fail_on {
                    Event::Failed("boom".to_owned())
                } else {
                    if let Action::Perform(op) = &other {
                        apply_fs_op(fs, op);
                    }
                    log.push(tag);
                    Event::Succeeded
                };
                action = compiler.step(event);
            }
        }
    }
}

fn target_keys(fs: &FakeFs) -> Vec<String> {
    fs.keys()
        .filter(|k| k.as_str() == "./awto/database" || k.starts_with("./awto/database/"))
        .cloned()
        .collect()
}

#[test]
fn successful_run_performs_every_step_in_order() {
    let mut fs = FakeFs::new();
    let log = match drive(Some("schema"), "awto::register_schemas!(UserAccount);\n", &mut fs, None)
    {
        Ok(log) => log,
        Err(e) => panic!("run failed: {}", e.message()),
    };
    assert_eq!(
        log,
        vec![
            "ensure:./awto".to_owned(),
            "remove:./awto/database".to_owned(),
            "create:./awto/database".to_owned(),
            "create:./awto/database/src".to_owned(),
            "write:./awto/database/Cargo.toml".to_owned(),
            "write:./awto/database/build.rs".to_owned(),
            "write:./awto/database/src/lib.rs".to_owned(),
            "register:awto/database".to_owned(),
            "build:database".to_owned(),
        ]
    );
}

#[test]
fn successful_run_leaves_exactly_the_generated_artifacts() {
    let mut fs = FakeFs::new();
    fs.insert("./awto/database/stale.rs".to_owned(), "left over".to_owned());
    fs.insert("./awto/database/src/old_lib.rs".to_owned(), "left over".to_owned());
    fs.insert("./elsewhere/keep.txt".to_owned(), "untouched".to_owned());
    let r = drive(Some("schema"), "awto::register_schemas!(UserAccount);\n", &mut fs, None);
    assert!(r.is_ok());
    assert_eq!(
        target_keys(&fs),
        vec![
            "./awto/database/Cargo.toml".to_owned(),
            "./awto/database/build.rs".to_owned(),
            "./awto/database/src/lib.rs".to_owned(),
        ]
    );
    assert_eq!(fs["./awto/database/Cargo.toml"], MANIFEST_TEXT);
    assert_eq!(fs["./awto/database/build.rs"], BUILD_TEXT);
    assert!(fs["./awto/database/src/lib.rs"].contains("pub mod user_account {"));
    assert!(fs["./awto/database/src/lib.rs"].contains("sea_orm::include_model!(\"user_account\");"));
    assert_eq!(fs["./elsewhere/keep.txt"], "untouched");
}

#[test]
fn second_run_leaves_only_second_list() {
    let mut fs = FakeFs::new();
    let first = drive(Some("schema"), "awto::register_schemas!(Product, Order);\n", &mut fs, None);
    assert!(first.is_ok());
    assert!(fs["./awto/database/src/lib.rs"].contains("pub mod product {"));
    let second = drive(Some("schema"), "awto::register_schemas!(BlogPost);\n", &mut fs, None);
    assert!(second.is_ok());
    let lib = &fs["./awto/database/src/lib.rs"];
    assert!(lib.contains("pub mod blog_post {"));
    assert!(!lib.contains("pub mod product {"));
    assert!(!lib.contains("pub mod order {"));
    assert_eq!(target_keys(&fs).len(), 3);
}

#[test]
fn wrong_schema_name_mutates_nothing() {
    let mut fs = FakeFs::new();
    fs.insert("./awto/database/stale.rs".to_owned(), "left over".to_owned());
    let before = fs.clone();
    let r = drive(Some("my_schema"), "awto::register_schemas!(A);\n", &mut fs, None);
    match r {
        Err(CompileError::InvalidSchemaName(name)) => assert_eq!(name, "my_schema"),
        _ => panic!("expected InvalidSchemaName"),
    }
    assert_eq!(fs, before);
}

#[test]
fn missing_schema_name_mutates_nothing() {
    let mut fs = FakeFs::new();
    let before = fs.clone();
    let r = drive(None, "awto::register_schemas!(A);\n", &mut fs, None);
    assert!(matches!(r, Err(CompileError::MissingSchemaName)));
    assert_eq!(fs, before);
}

#[test]
fn invalid_name_message_names_the_declared_name() {
    let e = match drive(
        Some("my_schema"),
        "awto::register_schemas!(A);\n",
        &mut FakeFs::new(),
        None,
    ) {
        Err(e) => e,
        Ok(_) => panic!("expected an error"),
    };
    assert_eq!(
        e.message(),
        "schema package must be named 'schema' but is named 'my_schema'"
    );
}

#[test]
fn no_registration_leaves_target_untouched() {
    let mut fs = FakeFs::new();
    fs.insert("./awto/database/stale.rs".to_owned(), "left over".to_owned());
    let r = drive(Some("schema"), "pub struct A;\n", &mut fs, None);
    assert!(matches!(r, Err(CompileError::NoRegistrationFound)));
    assert_eq!(fs["./awto/database/stale.rs"], "left over");
}

#[test]
fn parse_failure_aborts_the_run() {
    let r = drive(Some("schema"), "pub struct {{{", &mut FakeFs::new(), None);
    assert!(matches!(r, Err(CompileError::ParseError(_))));
}

#[test]
fn root_creation_failure_is_a_create_error() {
    let r = drive(
        Some("schema"),
        "awto::register_schemas!(A);\n",
        &mut FakeFs::new(),
        Some("ensure:./awto"),
    );
    match r {
        Err(CompileError::DirectoryCreateError(path, detail)) => {
            assert_eq!(path, "./awto");
            assert_eq!(detail, "boom");
        }
        _ => panic!("expected DirectoryCreateError"),
    }
}

#[test]
fn removal_failure_is_a_delete_error_naming_the_path() {
    let r = drive(
        Some("schema"),
        "awto::register_schemas!(A);\n",
        &mut FakeFs::new(),
        Some("remove:./awto/database"),
    );
    match r {
        Err(CompileError::DirectoryDeleteError(path, detail)) => {
            assert_eq!(path, "./awto/database");
            assert_eq!(detail, "boom");
            assert_eq!(
                CompileError::DirectoryDeleteError(path, detail).message(),
                "could not delete directory './awto/database': boom"
            );
        }
        _ => panic!("expected DirectoryDeleteError"),
    }
}

#[test]
fn entry_file_write_failure_is_a_write_error() {
    let r = drive(
        Some("schema"),
        "awto::register_schemas!(A);\n",
        &mut FakeFs::new(),
        Some("write:./awto/database/src/lib.rs"),
    );
    match r {
        Err(CompileError::FileWriteError(path, _)) => {
            assert_eq!(path, "./awto/database/src/lib.rs");
        }
        _ => panic!("expected FileWriteError"),
    }
}

#[test]
fn registration_failure_propagates_and_leaves_partial_state() {
    let mut fs = FakeFs::new();
    let r = drive(
        Some("schema"),
        "awto::register_schemas!(A);\n",
        &mut fs,
        Some("register:awto/database"),
    );
    assert!(matches!(r, Err(CompileError::WorkspaceRegistrationError(_))));
    assert_eq!(target_keys(&fs).len(), 3);
}

#[test]
fn build_failure_is_a_build_error() {
    let r = drive(
        Some("schema"),
        "awto::register_schemas!(A);\n",
        &mut FakeFs::new(),
        Some("build:database"),
    );
    match r {
        Err(CompileError::BuildError(detail)) => assert_eq!(detail, "boom"),
        _ => panic!("expected BuildError"),
    }
}

#[test]
fn database_run_starts_a_validated_run() {
    let command = Database { verbose: true };
    assert!(command.is_verbose());
    let (_, action) = command.run(
        Some("schema".to_owned()),
        "awto::register_schemas!(A);\n".to_owned(),
    );
    match action {
        Action::EnsureDir(path) => assert_eq!(path, "./awto"),
        _ => panic!("expected the root-preparation action"),
    }
}

#[test]
fn database_run_rejects_wrong_name_first() {
    let command = Database { verbose: false };
    let (_, action) = command.run(
        Some("other".to_owned()),
        "awto::register_schemas!(A);\n".to_owned(),
    );
    match action {
        Action::Abort(CompileError::InvalidSchemaName(name)) => assert_eq!(name, "other"),
        _ => panic!("expected an immediate abort"),
    }
}
