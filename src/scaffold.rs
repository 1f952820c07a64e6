use vstd::prelude::*;
use crate::error::ProjectError;
use crate::manifest::{is_default_named, texts, Manifest};
use crate::paths::{headers_path, join_path, manifest_path, path_join, src_path, build_path, ProjectPaths};

verus! {

/// The C program that a new project starts with.
pub open spec fn hello_world_text() -> Seq<char> {
    "#include <stdio.h>\n\nint main() {\n\tprintf(\"Hello World!\");\n\treturn 0;\n}"@
}

pub fn hello_world() -> (r: String)
    ensures
        r@ == hello_world_text(),
{
    String::from_str("#include <stdio.h>\n\nint main() {\n\tprintf(\"Hello World!\");\n\treturn 0;\n}")
}

/// The project name used when the directory's name is not valid Unicode.
pub open spec fn placeholder_name() -> Seq<char> {
    "placeholder"@
}

/// The name a project takes from its directory's final path segment, or the
/// placeholder when that name cannot be determined (`None`: the path has no
/// final segment, or it is not valid Unicode).
pub open spec fn name_from_segment(segment: Option<String>) -> Seq<char> {
    match segment {
        None => placeholder_name(),
        Some(s) => s@,
    }
}

/// Everything that scaffolding writes into an empty directory.
#[derive(Debug, Clone, PartialEq, Eq)]
pub struct Scaffold {
    /// Directories to create, in order.
    pub dirs: Vec<String>,
    pub main_path: String,
    pub main_source: String,
    pub manifest_path: String,
    pub manifest: Manifest,
}

/// What scaffolding the project at `root` must write.
pub open spec fn scaffold_of(root: Seq<char>, name: Seq<char>, s: Scaffold) -> bool {
    &&& texts(s.dirs@) == seq![src_path(root), headers_path(root), build_path(root)]
    &&& s.main_path@ == path_join(src_path(root), "main.c"@)
    &&& s.main_source@ == hello_world_text()
    &&& s.manifest_path@ == manifest_path(root)
    &&& is_default_named(s.manifest, name)
}

/// Decides whether a project may be created at `root`, and what to write
/// there. Nothing is to be written unless the directory exists and is empty.
pub fn plan_init(
    root: &str,
    is_dir: bool,
    is_empty: bool,
    segment: Option<String>,
) -> (r: Result<Scaffold, ProjectError>)
    ensures
        !is_dir ==> (r matches Err(ProjectError::InvalidPath(p)) && p@ == root@),
        is_dir && !is_empty ==> (r matches Err(ProjectError::NonEmptyPath(p)) && p@ == root@),
        is_dir && is_empty ==> r is Ok && scaffold_of(root@, name_from_segment(segment), r->Ok_0),
{
    if !is_dir {
        return Err(ProjectError::InvalidPath(String::from_str(root)));
    }
    if !is_empty {
        return Err(ProjectError::NonEmptyPath(String::from_str(root)));
    }
    let name = match segment {
        None => String::from_str("placeholder"),
        Some(s) => s,
    };
    let paths = ProjectPaths::of(root);
    let main_path = join_path(paths.src.as_str(), "main.c");
    let mut dirs: Vec<String> = Vec::new();
    dirs.push(paths.src);
    dirs.push(paths.headers);
    dirs.push(paths.build);
    let s = Scaffold {
        dirs,
        main_path,
        main_source: hello_world(),
        manifest_path: paths.manifest,
        manifest: Manifest::named(name.as_str()),
    };
    assert(texts(s.dirs@) =~= seq![src_path(root@), headers_path(root@), build_path(root@)]);
    Ok(s)
}

} // verus!
