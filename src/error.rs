use vstd::prelude::*;

verus! {

/// Failures while reading or writing a manifest.
#[derive(Debug, Clone, PartialEq, Eq)]
pub enum ManifestError {
    /// The text is not a well-formed manifest; holds the reason.
    InvalidManifest(String),
    /// The manifest could not be turned into text; holds the reason.
    SerializeError(String),
}

/// Failures of a build before the compiler is started.
#[derive(Debug, Clone, Copy, PartialEq, Eq)]
pub enum BuildError {
    /// The manifest, `src/`, `include/` or `build/` is missing.
    InvalidDirectory,
    /// The manifest names a compiler outside the recognised set.
    InvalidCompiler,
}

/// Failures in reading the command line.
#[derive(Debug, Clone, PartialEq, Eq)]
pub enum CliError {
    InvalidCommand,
    MissingArgument(String),
}

/// Failures while creating or running a project.
#[derive(Debug, Clone, PartialEq, Eq)]
pub enum ProjectError {
    ManifestError(ManifestError),
    InvalidPath(String),
    NonEmptyPath(String),
    IoError(String),
    /// The built artifact at this path could not be started.
    NotExecutable(String),
}

/// The text shown to the user for a manifest failure.
pub open spec fn manifest_message(e: ManifestError) -> Seq<char> {
    match e {
        ManifestError::InvalidManifest(e) => "Error: Failed to read manifest.\n "@ + e@,
        ManifestError::SerializeError(e) => "Error: Failed to create manifest.\n "@ + e@,
    }
}

impl ManifestError {
    /// The text shown to the user.
    pub fn message(&self) -> (r: String)
        ensures
            r@ == manifest_message(*self),
    {
        match self {
            ManifestError::InvalidManifest(e) => String::from_str(
                "Error: Failed to read manifest.\n ",
            ).concat(e.as_str()),
            ManifestError::SerializeError(e) => String::from_str(
                "Error: Failed to create manifest.\n ",
            ).concat(e.as_str()),
        }
    }
}

impl BuildError {
    /// The text shown to the user.
    pub fn message(&self) -> (r: String)
        ensures
            r@ == match self {
                BuildError::InvalidDirectory => "Error: Project has invalid structure.\n"@,
                BuildError::InvalidCompiler => "Error: Compiler given in the manifest is invalid.\n"@,
            },
    {
        match self {
            BuildError::InvalidDirectory => String::from_str("Error: Project has invalid structure.\n"),
            BuildError::InvalidCompiler => String::from_str(
                "Error: Compiler given in the manifest is invalid.\n",
            ),
        }
    }
}

impl CliError {
    /// The text shown to the user.
    pub fn message(&self) -> (r: String)
        ensures
            r@ == match self {
                CliError::InvalidCommand => "Error: Invalid command was given."@,
                CliError::MissingArgument(a) => "Error: Missing argument "@ + a@ + "\n"@,
            },
    {
        match self {
            CliError::InvalidCommand => String::from_str("Error: Invalid command was given."),
            CliError::MissingArgument(a) => String::from_str("Error: Missing argument ").concat(
                a.as_str(),
            ).concat("\n"),
        }
    }
}

impl ProjectError {
    /// The text shown to the user.
    pub fn message(&self) -> (r: String)
        ensures
            r@ == match self {
                ProjectError::ManifestError(e) => manifest_message(*e) + "\n"@,
                ProjectError::InvalidPath(p) => "Error: Invalid path given. \n \""@ + p@ + "\"\n"@,
                ProjectError::NonEmptyPath(p) => "Error: Path given is not empty. \n "@ + p@ + "\n"@,
                ProjectError::IoError(e) => "Error: Project caused an std::io::Error. \n "@ + e@
                    + "\n"@,
                ProjectError::NotExecutable(p) => "Error: Could not run executable. \n "@ + p@
                    + "\n"@,
            },
    {
        match self {
            ProjectError::ManifestError(e) => e.message().concat("\n"),
            ProjectError::InvalidPath(p) => String::from_str(
                "Error: Invalid path given. \n \"",
            ).concat(p.as_str()).concat("\"\n"),
            ProjectError::NonEmptyPath(p) => String::from_str(
                "Error: Path given is not empty. \n ",
            ).concat(p.as_str()).concat("\n"),
            ProjectError::IoError(e) => String::from_str(
                "Error: Project caused an std::io::Error. \n ",
            ).concat(e.as_str()).concat("\n"),
            ProjectError::NotExecutable(p) => String::from_str(
                "Error: Could not run executable. \n ",
            ).concat(p.as_str()).concat("\n"),
        }
    }
}

} // verus!
