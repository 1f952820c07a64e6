use vstd::prelude::*;
use crate::error::{BuildError, ProjectError};
use crate::manifest::{texts, Manifest};
use crate::paths::{artifact, artifact_path};

verus! {

/// Which of the four required project paths were found on disk.
#[derive(Debug, Clone, Copy, PartialEq, Eq)]
pub struct Presence {
    pub manifest: bool,
    pub src: bool,
    pub headers: bool,
    pub build: bool,
}

pub open spec fn is_complete(p: Presence) -> bool {
    p.manifest && p.src && p.headers && p.build
}

/// Checks the project's shape: every required path must exist.
pub fn validate(found: &Presence) -> (r: Result<(), BuildError>)
    ensures
        r is Ok <==> is_complete(*found),
        !is_complete(*found) ==> r == Err::<(), BuildError>(BuildError::InvalidDirectory),
{
    if found.manifest && found.src && found.headers && found.build {
        Ok(())
    } else {
        Err(BuildError::InvalidDirectory)
    }
}

/// The compilers a manifest may name.
#[derive(Debug, Clone, Copy, PartialEq, Eq)]
pub enum Compiler {
    Gcc,
    Clang,
}

/// The closed mapping from manifest spellings to compilers.
pub open spec fn compiler_named(s: Seq<char>) -> Option<Compiler> {
    if s == "gcc"@ || s == "GCC"@ {
        Some(Compiler::Gcc)
    } else if s == "clang"@ || s == "CLANG"@ || s == "Clang"@ {
        Some(Compiler::Clang)
    } else {
        None
    }
}

/// The executable that runs a compiler.
pub open spec fn program_of(c: Compiler) -> Seq<char> {
    match c {
        Compiler::Gcc => "gcc"@,
        Compiler::Clang => "clang"@,
    }
}

impl Compiler {
    pub fn program(&self) -> (r: String)
        ensures
            r@ == program_of(*self),
    {
        match self {
            Compiler::Gcc => String::from_str("gcc"),
            Compiler::Clang => String::from_str("clang"),
        }
    }
}

/// Resolves the manifest's `build.compiler` value.
pub fn resolve_compiler(name: &String) -> (r: Result<Compiler, BuildError>)
    ensures
        match compiler_named(name@) {
            Some(c) => r == Ok::<Compiler, BuildError>(c),
            None => r == Err::<Compiler, BuildError>(BuildError::InvalidCompiler),
        },
{
    if *name == String::from_str("gcc") || *name == String::from_str("GCC") {
        Ok(Compiler::Gcc)
    } else if *name == String::from_str("clang") || *name == String::from_str("CLANG")
        || *name == String::from_str("Clang") {
        Ok(Compiler::Clang)
    } else {
        Err(BuildError::InvalidCompiler)
    }
}

/// The compiler's argument vector: sources, then headers, then flags, then
/// the output option.
pub open spec fn argument_list(
    sources: Seq<Seq<char>>,
    headers: Seq<Seq<char>>,
    cflags: Seq<Seq<char>>,
    output: Seq<char>,
) -> Seq<Seq<char>> {
    sources + headers + cflags + seq!["-o"@, output]
}

fn append_all(out: &mut Vec<String>, items: &Vec<String>)
    ensures
        texts(final(out)@) == texts(old(out)@) + texts(items@),
{
    let ghost start = texts(out@);
    let mut i: usize = 0;
    while i < items.len()
        invariant
            0 <= i <= items.len(),
            texts(out@) == start + texts(items@.subrange(0, i as int)),
        decreases items.len() - i,
    {
        let ghost prev = out@;
        let item = items[i].clone();
        assert(item@ == items@[i as int]@);
        out.push(item);
        proof {
            assert(texts(out@) =~= texts(prev).push(items@[i as int]@));
            assert(texts(items@.subrange(0, i + 1)) =~= texts(items@.subrange(0, i as int)).push(
                items@[i as int]@,
            ));
        }
        i = i + 1;
    }
    proof {
        assert(items@.subrange(0, i as int) =~= items@);
    }
}

/// Builds the compiler's argument vector.
pub fn compiler_args(
    sources: &Vec<String>,
    headers: &Vec<String>,
    cflags: &Vec<String>,
    output: &str,
) -> (r: Vec<String>)
    ensures
        texts(r@) == argument_list(texts(sources@), texts(headers@), texts(cflags@), output@),
{
    let mut r: Vec<String> = Vec::new();
    append_all(&mut r, sources);
    append_all(&mut r, headers);
    append_all(&mut r, cflags);
    r.push(String::from_str("-o"));
    r.push(String::from_str(output));
    proof {
        assert(texts(r@) =~= argument_list(texts(sources@), texts(headers@), texts(cflags@), output@));
    }
    r
}

/// A compiler process to start: the program and its arguments.
#[derive(Debug, Clone, PartialEq, Eq)]
pub struct Invocation {
    pub program: String,
    pub args: Vec<String>,
}

/// What a build of the project at `root` with manifest `m` must run, given
/// the files found under `src/` and under `include/`.
pub open spec fn planned(
    root: Seq<char>,
    m: Manifest,
    sources: Seq<Seq<char>>,
    headers: Seq<Seq<char>>,
    inv: Invocation,
) -> bool {
    &&& compiler_named(m.build.compiler@) is Some
    &&& inv.program@ == program_of(compiler_named(m.build.compiler@)->0)
    &&& texts(inv.args@) == argument_list(
        sources,
        headers,
        texts(m.build.cflags@),
        artifact_path(root, m.meta.name@),
    )
}

/// Decides the compiler invocation of a build, once the project's shape has
/// been checked and its sources found.
pub fn plan_build(
    root: &str,
    manifest: &Manifest,
    sources: &Vec<String>,
    headers: &Vec<String>,
) -> (r: Result<Invocation, BuildError>)
    ensures
        compiler_named(manifest.build.compiler@) is None
            ==> r == Err::<Invocation, BuildError>(BuildError::InvalidCompiler),
        compiler_named(manifest.build.compiler@) is Some ==> r is Ok
            && planned(root@, *manifest, texts(sources@), texts(headers@), r->Ok_0),
{
    let compiler = match resolve_compiler(&manifest.build.compiler) {
        Ok(c) => c,
        Err(e) => return Err(e),
    };
    let output = artifact(root, manifest.meta.name.as_str());
    let args = compiler_args(sources, headers, &manifest.build.cflags, output.as_str());
    Ok(Invocation { program: compiler.program(), args })
}

/// Before running, the manifest must be a file and `build/` a directory.
pub fn check_run(root: &str, manifest_is_file: bool, build_is_dir: bool) -> (r: Result<
    (),
    ProjectError,
>)
    ensures
        !manifest_is_file ==> (r matches Err(ProjectError::InvalidPath(m)) && m@
            == "Missing cedar.toml file in path: "@ + root@),
        manifest_is_file && !build_is_dir ==> (r matches Err(ProjectError::InvalidPath(m)) && m@
            == "Missing build directory in path: "@ + root@),
        manifest_is_file && build_is_dir ==> r is Ok,
{
    if !manifest_is_file {
        return Err(
            ProjectError::InvalidPath(String::from_str("Missing cedar.toml file in path: ").concat(root)),
        );
    }
    if !build_is_dir {
        return Err(
            ProjectError::InvalidPath(String::from_str("Missing build directory in path: ").concat(root)),
        );
    }
    Ok(())
}

/// In a planned invocation every file found under `src/` comes, in its
/// order, before every file found under `include/`, and the flags follow
/// both in manifest order.
pub proof fn lemma_sources_precede_headers(
    root: Seq<char>,
    m: Manifest,
    sources: Seq<Seq<char>>,
    headers: Seq<Seq<char>>,
    inv: Invocation,
)
    requires
        planned(root, m, sources, headers, inv),
    ensures
        forall|i: int| 0 <= i < sources.len() ==> #[trigger] texts(inv.args@)[i] == sources[i],
        forall|j: int|
            0 <= j < headers.len() ==> #[trigger] texts(inv.args@)[sources.len() + j] == headers[j],
        forall|k: int|
            0 <= k < m.build.cflags@.len() ==> #[trigger] texts(inv.args@)[sources.len()
                + headers.len() + k] == m.build.cflags@[k]@,
        texts(inv.args@).len() == sources.len() + headers.len() + m.build.cflags@.len() + 2,
{
}

} // verus!
