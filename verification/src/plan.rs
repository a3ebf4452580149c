use vstd::prelude::*;

verus! {

/// The two fixed template payloads of the generated package. Their bytes are
/// opaque to this crate: the runner supplies them and writes them verbatim.
#[derive(Clone, Copy, PartialEq, Eq, Structural)]
pub enum Template {
    Manifest,
    BuildStep,
}

/// One file-system operation of a materialization run, in the order a runner
/// must perform them.
pub enum FsOp {
    /// Recursively remove the directory if it exists; an absent directory is
    /// a success.
    RemoveDirIfPresent(String),
    /// Create the directory; it must not exist yet.
    CreateDir(String),
    /// Write one of the fixed template payloads verbatim to this path.
    WriteTemplate(String, Template),
    /// Write this text to this path.
    WriteFile(String, String),
}

/// Spec-level image of an `FsOp`.
pub enum FsOpModel {
    RemoveDirIfPresent(Seq<char>),
    CreateDir(Seq<char>),
    WriteTemplate(Seq<char>, Template),
    WriteFile(Seq<char>, Seq<char>),
}

impl View for FsOp {
    type V = FsOpModel;

    open spec fn view(&self) -> FsOpModel {
        match self {
            FsOp::RemoveDirIfPresent(path) => FsOpModel::RemoveDirIfPresent(path@),
            FsOp::CreateDir(path) => FsOpModel::CreateDir(path@),
            FsOp::WriteTemplate(path, which) => FsOpModel::WriteTemplate(path@, *which),
            FsOp::WriteFile(path, text) => FsOpModel::WriteFile(path@, text@),
        }
    }
}

/// The generated package's directory.
pub open spec fn database_dir() -> Seq<char> {
    "./awto/database"@
}

/// The generated package's source subdirectory.
pub open spec fn database_src_dir() -> Seq<char> {
    "./awto/database/src"@
}

/// Where the manifest template is written.
pub open spec fn database_manifest_path() -> Seq<char> {
    "./awto/database/Cargo.toml"@
}

/// Where the build-step template is written.
pub open spec fn database_build_path() -> Seq<char> {
    "./awto/database/build.rs"@
}

/// Where the generated library entry file is written.
pub open spec fn database_lib_path() -> Seq<char> {
    "./awto/database/src/lib.rs"@
}

/// The shared workspace root that holds every generated package.
pub open spec fn workspace_root_dir() -> Seq<char> {
    "./awto"@
}

/// The path under which the generated package is recorded in the workspace
/// manifest.
pub open spec fn package_workspace_path() -> Seq<char> {
    "awto/database"@
}

/// The generated package's name, handed to the build trigger.
pub open spec fn package_name() -> Seq<char> {
    "database"@
}

/// The name the schema package must declare.
pub open spec fn required_schema_name() -> Seq<char> {
    "schema"@
}

/// How many operations a materialization run performs.
pub open spec fn plan_len() -> int {
    6
}

/// The materialization plan for a generated entry file `lib`: a hard reset of
/// the package directory, then the directories, then the three artifacts.
pub open spec fn plan_spec(lib: Seq<char>) -> Seq<FsOpModel> {
    seq![
        FsOpModel::RemoveDirIfPresent(database_dir()),
        FsOpModel::CreateDir(database_dir()),
        FsOpModel::CreateDir(database_src_dir()),
        FsOpModel::WriteTemplate(database_manifest_path(), Template::Manifest),
        FsOpModel::WriteTemplate(database_build_path(), Template::BuildStep),
        FsOpModel::WriteFile(database_lib_path(), lib),
    ]
}

/// The operation a materialization run performs at position `idx`, built from
/// the generated entry file.
pub fn op_at(lib: &String, idx: usize) -> (op: FsOp)
    requires
        idx < plan_len(),
    ensures
        op@ == plan_spec(lib@)[idx as int],
{
    if idx == 0 {
        FsOp::RemoveDirIfPresent("./awto/database".to_owned())
    } else if idx == 1 {
        FsOp::CreateDir("./awto/database".to_owned())
    } else if idx == 2 {
        FsOp::CreateDir("./awto/database/src".to_owned())
    } else if idx == 3 {
        FsOp::WriteTemplate("./awto/database/Cargo.toml".to_owned(), Template::Manifest)
    } else if idx == 4 {
        FsOp::WriteTemplate("./awto/database/build.rs".to_owned(), Template::BuildStep)
    } else {
        FsOp::WriteFile("./awto/database/src/lib.rs".to_owned(), lib.clone())
    }
}

/// Is `path` strictly inside the directory `dir`?
pub open spec fn is_under(dir: Seq<char>, path: Seq<char>) -> bool {
    path.len() > dir.len() && path.take(dir.len() as int) == dir && path[dir.len() as int] == '/'
}

/// Does a hard reset of `dir` dispose of `path`: the directory itself or
/// anything inside it?
pub open spec fn in_target(dir: Seq<char>, path: Seq<char>) -> bool {
    path == dir || is_under(dir, path)
}

/// A file system, modeled as the map from file path to file text; directories
/// are implicit in the paths. The model describes runs whose every operation
/// succeeds. Template payloads are the parameters `mtext` and `btext`.
pub open spec fn apply_op(
    fs: Map<Seq<char>, Seq<char>>,
    op: FsOpModel,
    mtext: Seq<char>,
    btext: Seq<char>,
) -> Map<Seq<char>, Seq<char>> {
    match op {
        FsOpModel::RemoveDirIfPresent(dir) => fs.remove_keys(
            Set::new(|path: Seq<char>| in_target(dir, path)),
        ),
        FsOpModel::CreateDir(_) => fs,
        FsOpModel::WriteTemplate(path, Template::Manifest) => fs.insert(path, mtext),
        FsOpModel::WriteTemplate(path, Template::BuildStep) => fs.insert(path, btext),
        FsOpModel::WriteFile(path, text) => fs.insert(path, text),
    }
}

/// The file system after a sequence of operations, applied in order.
pub open spec fn apply_plan(
    fs: Map<Seq<char>, Seq<char>>,
    ops: Seq<FsOpModel>,
    mtext: Seq<char>,
    btext: Seq<char>,
) -> Map<Seq<char>, Seq<char>>
    decreases ops.len(),
{
    if ops.len() == 0 {
        fs
    } else {
        apply_plan(apply_op(fs, ops[0], mtext, btext), ops.drop_first(), mtext, btext)
    }
}

/// The file system with everything inside the package directory disposed of.
pub open spec fn target_purged(fs: Map<Seq<char>, Seq<char>>) -> Map<Seq<char>, Seq<char>> {
    fs.remove_keys(Set::new(|path: Seq<char>| in_target(database_dir(), path)))
}

/// The file system after a successful materialization: the package directory
/// purged, then exactly the three artifacts written.
pub open spec fn materialized(
    fs: Map<Seq<char>, Seq<char>>,
    lib: Seq<char>,
    mtext: Seq<char>,
    btext: Seq<char>,
) -> Map<Seq<char>, Seq<char>> {
    target_purged(fs).insert(database_manifest_path(), mtext).insert(
        database_build_path(),
        btext,
    ).insert(database_lib_path(), lib)
}

/// The three artifact paths lie inside the package directory and differ from
/// one another.
pub proof fn lemma_artifact_paths()
    ensures
        is_under(database_dir(), database_manifest_path()),
        is_under(database_dir(), database_build_path()),
        is_under(database_dir(), database_lib_path()),
        database_manifest_path() != database_build_path(),
        database_manifest_path() != database_lib_path(),
        database_build_path() != database_lib_path(),
{
    reveal_strlit("./awto/database");
    reveal_strlit("./awto/database/Cargo.toml");
    reveal_strlit("./awto/database/build.rs");
    reveal_strlit("./awto/database/src/lib.rs");
    assert(database_manifest_path().take(15) =~= database_dir());
    assert(database_build_path().take(15) =~= database_dir());
    assert(database_lib_path().take(15) =~= database_dir());
    assert(database_manifest_path()[16] != database_lib_path()[16]);
    assert(database_manifest_path().len() != database_build_path().len());
    assert(database_build_path().len() != database_lib_path().len());
}

/// Running the plan on a file system is purging the package directory and
/// writing the three artifacts.
pub proof fn lemma_apply_plan_materializes(
    fs: Map<Seq<char>, Seq<char>>,
    lib: Seq<char>,
    mtext: Seq<char>,
    btext: Seq<char>,
)
    ensures
        apply_plan(fs, plan_spec(lib), mtext, btext) == materialized(fs, lib, mtext, btext),
{
    let ops = plan_spec(lib);
    let fs0 = apply_op(fs, ops[0], mtext, btext);
    let fs1 = apply_op(fs0, ops[1], mtext, btext);
    let fs2 = apply_op(fs1, ops[2], mtext, btext);
    let fs3 = apply_op(fs2, ops[3], mtext, btext);
    let fs4 = apply_op(fs3, ops[4], mtext, btext);
    let fs5 = apply_op(fs4, ops[5], mtext, btext);
    let tail1 = ops.drop_first();
    let tail2 = tail1.drop_first();
    let tail3 = tail2.drop_first();
    let tail4 = tail3.drop_first();
    let tail5 = tail4.drop_first();
    let tail6 = tail5.drop_first();
    assert(tail1 =~= seq![ops[1], ops[2], ops[3], ops[4], ops[5]]);
    assert(tail2 =~= seq![ops[2], ops[3], ops[4], ops[5]]);
    assert(tail3 =~= seq![ops[3], ops[4], ops[5]]);
    assert(tail4 =~= seq![ops[4], ops[5]]);
    assert(tail5 =~= seq![ops[5]]);
    assert(tail6 =~= Seq::<FsOpModel>::empty());
    assert(apply_plan(fs, ops, mtext, btext) == apply_plan(fs0, tail1, mtext, btext));
    assert(apply_plan(fs0, tail1, mtext, btext) == apply_plan(fs1, tail2, mtext, btext));
    assert(apply_plan(fs1, tail2, mtext, btext) == apply_plan(fs2, tail3, mtext, btext));
    assert(apply_plan(fs2, tail3, mtext, btext) == apply_plan(fs3, tail4, mtext, btext));
    assert(apply_plan(fs3, tail4, mtext, btext) == apply_plan(fs4, tail5, mtext, btext));
    assert(apply_plan(fs4, tail5, mtext, btext) == apply_plan(fs5, tail6, mtext, btext));
    assert(apply_plan(fs5, tail6, mtext, btext) == fs5);
    assert(fs0 == target_purged(fs));
    assert(fs5 == materialized(fs, lib, mtext, btext));
}

/// Hard reset: after a successful materialization the package directory holds
/// exactly the three generated artifacts, with the given contents; whatever
/// stood inside it before, related or not, is gone; everything outside it is
/// untouched.
pub proof fn lemma_materialize_exact_artifacts(
    fs: Map<Seq<char>, Seq<char>>,
    lib: Seq<char>,
    mtext: Seq<char>,
    btext: Seq<char>,
)
    ensures
        ({
            let after = apply_plan(fs, plan_spec(lib), mtext, btext);
            &&& after.contains_key(database_manifest_path()) && after[database_manifest_path()]
                == mtext
            &&& after.contains_key(database_build_path()) && after[database_build_path()] == btext
            &&& after.contains_key(database_lib_path()) && after[database_lib_path()] == lib
            &&& forall|path: Seq<char>|
                after.contains_key(path) && in_target(database_dir(), path) ==> path
                    == database_manifest_path() || path == database_build_path() || path
                    == database_lib_path()
            &&& forall|path: Seq<char>|
                fs.contains_key(path) && in_target(database_dir(), path) && path
                    != database_manifest_path() && path != database_build_path() && path
                    != database_lib_path() ==> !after.contains_key(path)
            &&& forall|path: Seq<char>|
                !in_target(database_dir(), path) ==> (after.contains_key(path)
                    <==> fs.contains_key(path)) && (fs.contains_key(path) ==> after[path]
                    == fs[path])
        }),
{
    lemma_artifact_paths();
    lemma_apply_plan_materializes(fs, lib, mtext, btext);
}

/// Materializing twice in a row leaves exactly the state of the second run
/// alone: no residue of the first run's model list survives.
pub proof fn lemma_second_run_wins(
    fs: Map<Seq<char>, Seq<char>>,
    lib1: Seq<char>,
    lib2: Seq<char>,
    mtext: Seq<char>,
    btext: Seq<char>,
)
    ensures
        apply_plan(apply_plan(fs, plan_spec(lib1), mtext, btext), plan_spec(lib2), mtext, btext)
            == apply_plan(fs, plan_spec(lib2), mtext, btext),
{
    lemma_artifact_paths();
    lemma_apply_plan_materializes(fs, lib1, mtext, btext);
    let mid = materialized(fs, lib1, mtext, btext);
    lemma_apply_plan_materializes(mid, lib2, mtext, btext);
    lemma_apply_plan_materializes(fs, lib2, mtext, btext);
    assert(materialized(mid, lib2, mtext, btext) =~= materialized(fs, lib2, mtext, btext));
}

} // verus!
