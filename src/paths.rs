use vstd::prelude::*;

verus! {

/// Joins a relative segment onto a base path, inserting exactly one `/`
/// between them unless the base is empty or already ends with `/`.
pub open spec fn path_join(base: Seq<char>, seg: Seq<char>) -> Seq<char> {
    if base.len() == 0 || base.last() == '/' {
        base + seg
    } else {
        base + seq!['/'] + seg
    }
}

/// Executable counterpart of `path_join`.
pub fn join_path(base: &str, seg: &str) -> (r: String)
    ensures
        r@ == path_join(base@, seg@),
{
    let n = base.unicode_len();
    let mut r = String::from_str(base);
    if n > 0 && base.get_char(n - 1) != '/' {
        let sep = "/";
        proof {
            reveal_strlit("/");
        }
        r.append(sep);
    }
    r.append(seg);
    r
}

/// The four locations that make up a project rooted at some directory.
#[derive(Debug, Clone, PartialEq, Eq)]
pub struct ProjectPaths {
    pub manifest: String,
    pub src: String,
    pub headers: String,
    pub build: String,
}

pub open spec fn manifest_path(root: Seq<char>) -> Seq<char> {
    path_join(root, "cedar.toml"@)
}

pub open spec fn src_path(root: Seq<char>) -> Seq<char> {
    path_join(root, "src/"@)
}

pub open spec fn headers_path(root: Seq<char>) -> Seq<char> {
    path_join(root, "include/"@)
}

pub open spec fn build_path(root: Seq<char>) -> Seq<char> {
    path_join(root, "build/"@)
}

/// Where the executable of project `name` rooted at `root` is written.
pub open spec fn artifact_path(root: Seq<char>, name: Seq<char>) -> Seq<char> {
    path_join(build_path(root), name)
}

impl ProjectPaths {
    pub fn of(root: &str) -> (r: ProjectPaths)
        ensures
            r.manifest@ == manifest_path(root@),
            r.src@ == src_path(root@),
            r.headers@ == headers_path(root@),
            r.build@ == build_path(root@),
    {
        ProjectPaths {
            manifest: join_path(root, "cedar.toml"),
            src: join_path(root, "src/"),
            headers: join_path(root, "include/"),
            build: join_path(root, "build/"),
        }
    }
}

/// The path of the executable that a build of project `name` produces.
pub fn artifact(root: &str, name: &str) -> (r: String)
    ensures
        r@ == artifact_path(root@, name@),
{
    let b = join_path(root, "build/");
    join_path(b.as_str(), name)
}

} // verus!
