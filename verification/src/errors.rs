use vstd::prelude::*;

verus! {

/// What can go wrong during one install attempt. Every failure is terminal
/// for the attempt; no stage recovers from another stage's failure.
#[derive(Clone, Copy, Debug, PartialEq, Eq, Structural)]
pub enum InstallError {
    /// The mod reference could not be parsed to an identifier.
    Resolution,
    /// A remote call (metadata or download) did not complete.
    Network,
    /// A remote response did not match the expected shape.
    Decode,
    /// A filesystem create, read or write failed.
    Io,
    /// No file with the sought patch extension exists in the staging tree.
    NotFound,
    /// An external tool could not be launched or exited unsuccessfully.
    ExternalTool,
    /// The mod's file listing was empty: the pipeline has no fallback source.
    Precondition,
}

impl InstallError {
    /// A short fixed description of the error kind.
    pub fn describe(&self) -> (r: &'static str)
        ensures
            r@ == self.describe_spec(),
    {
        match self {
            InstallError::Resolution => "the mod reference could not be parsed",
            InstallError::Network => "a remote call failed",
            InstallError::Decode => "a remote response had an unexpected shape",
            InstallError::Io => "a filesystem operation failed",
            InstallError::NotFound => "no patch file with the sought extension was found",
            InstallError::ExternalTool => "an external tool failed",
            InstallError::Precondition => "the mod publishes no files",
        }
    }

    /// The description each error kind carries.
    pub open spec fn describe_spec(&self) -> Seq<char> {
        match self {
            InstallError::Resolution => "the mod reference could not be parsed"@,
            InstallError::Network => "a remote call failed"@,
            InstallError::Decode => "a remote response had an unexpected shape"@,
            InstallError::Io => "a filesystem operation failed"@,
            InstallError::NotFound => "no patch file with the sought extension was found"@,
            InstallError::ExternalTool => "an external tool failed"@,
            InstallError::Precondition => "the mod publishes no files"@,
        }
    }
}

} // verus!
