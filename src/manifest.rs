use vstd::prelude::*;
use crate::error::ManifestError;

verus! {

/// The project's persisted configuration record.
#[derive(Debug, Clone, PartialEq, Eq)]
pub struct Manifest {
    pub meta: Meta,
    pub build: Build,
}

#[derive(Debug, Clone, PartialEq, Eq)]
pub struct Meta {
    pub name: String,
    pub version: Option<String>,
    pub description: Option<String>,
}

#[derive(Debug, Clone, PartialEq, Eq)]
pub struct Build {
    pub compiler: String,
    pub cflags: Vec<String>,
}

/// The character sequences of a sequence of strings.
pub open spec fn texts(v: Seq<String>) -> Seq<Seq<char>> {
    v.map_values(|s: String| s@)
}

/// The state that `Manifest::new` produces, with the project named `name`.
pub open spec fn is_default_named(m: Manifest, name: Seq<char>) -> bool {
    &&& m.meta.name@ == name
    &&& m.meta.version is Some
    &&& m.meta.version->0@ == "0.1.0"@
    &&& m.meta.description is None
    &&& m.build.compiler@ == "GCC"@
    &&& texts(m.build.cflags@) == seq!["-Wall"@, "-Wextra"@]
}

/// The state that `Manifest::new` produces: no name yet.
pub open spec fn is_default(m: Manifest) -> bool {
    is_default_named(m, Seq::<char>::empty())
}

/// A manifest is usable when its project has a name.
pub open spec fn has_name(m: Manifest) -> bool {
    m.meta.name@.len() > 0
}

/// `r` is `m` with the version defaulted to `0.1.0` where `m` states none.
pub open spec fn completes(m: Manifest, r: Manifest) -> bool {
    &&& r.meta.name == m.meta.name
    &&& r.meta.description == m.meta.description
    &&& r.build == m.build
    &&& match m.meta.version {
        Some(v) => r.meta.version == Some(v),
        None => r.meta.version is Some && r.meta.version->0@ == "0.1.0"@,
    }
}

impl Manifest {
    pub fn new() -> (r: Manifest)
        ensures
            is_default(r),
    {
        let mut cflags: Vec<String> = Vec::new();
        cflags.push(String::from_str("-Wall"));
        cflags.push(String::from_str("-Wextra"));
        let r = Manifest {
            meta: Meta {
                name: String::new(),
                version: Some(String::from_str("0.1.0")),
                description: None,
            },
            build: Build { compiler: String::from_str("GCC"), cflags },
        };
        assert(texts(r.build.cflags@) =~= seq!["-Wall"@, "-Wextra"@]);
        r
    }

    /// The default manifest with the project's name filled in.
    pub fn named(name: &str) -> (r: Manifest)
        ensures
            is_default_named(r, name@),
    {
        let mut m = Manifest::new();
        m.meta.name = String::from_str(name);
        m
    }

    /// Accepts a record read from text only when it names its project, and
    /// gives it the default version when it states none.
    pub fn checked(self) -> (r: Result<Manifest, ManifestError>)
        ensures
            has_name(self) ==> r is Ok && completes(self, r->Ok_0),
            !has_name(self) ==> (r matches Err(ManifestError::InvalidManifest(m)) && m@
                == "meta.name is empty"@),
    {
        if self.meta.name.as_str().unicode_len() == 0 {
            return Err(ManifestError::InvalidManifest(String::from_str("meta.name is empty")));
        }
        let Manifest { meta: Meta { name, version, description }, build } = self;
        let version = match version {
            Some(v) => Some(v),
            None => Some(String::from_str("0.1.0")),
        };
        Ok(Manifest { meta: Meta { name, version, description }, build })
    }
}

impl Default for Manifest {
    fn default() -> (r: Manifest)
        ensures
            is_default(r),
    {
        Manifest::new()
    }
}

} // verus!
