use vstd::prelude::*;

verus! {

/// The application.
pub struct App;

/// Where uploaded files are kept.
#[derive(Debug, Clone, Copy, PartialEq, Eq, Structural)]
pub enum StorageDriver {
    /// In memory, gone when the process ends.
    Memory,
    /// On the local disk, under `storage-uploads`.
    Local,
}

/// The version the application reports: the package version, then in
/// parentheses the build's commit (from `BUILD_SHA`, else `GITHUB_SHA`), or
/// "dev" when neither was set at build time.
pub open spec fn version_text(pkg_version: Seq<char>, build_sha: Option<Seq<char>>, github_sha: Option<Seq<char>>) -> Seq<char> {
    let commit = match build_sha {
        Some(s) => s,
        None => match github_sha {
            Some(s) => s,
            None => "dev"@,
        },
    };
    pkg_version + " ("@ + commit + ")"@
}

/// The text of an optional string.
pub open spec fn opt_text(s: Option<&str>) -> Option<Seq<char>> {
    match s {
        Some(t) => Some(t@),
        None => None,
    }
}

impl App {
    /// Tests keep uploads in memory; every other environment on disk.
    pub fn storage_driver(is_test: bool) -> (res: StorageDriver)
        ensures
            res == (if is_test {
                StorageDriver::Memory
            } else {
                StorageDriver::Local
            }),
    {
        if is_test {
            StorageDriver::Memory
        } else {
            StorageDriver::Local
        }
    }

    /// The directory prefix of the local store.
    pub fn local_storage_prefix() -> (res: String)
        ensures
            res@ == "storage-uploads"@,
    {
        "storage-uploads".to_owned()
    }

    /// The version text for the given build-time values (see `version_text`).
    pub fn app_version(pkg_version: &str, build_sha: Option<&str>, github_sha: Option<&str>) -> (res: String)
        ensures
            res@ == version_text(pkg_version@, opt_text(build_sha), opt_text(github_sha)),
    {
        let commit: &str = match build_sha {
            Some(s) => s,
            None => match github_sha {
                Some(s) => s,
                None => "dev",
            },
        };
        let mut res = pkg_version.to_owned();
        res.append(" (");
        res.append(commit);
        res.append(")");
        res
    }
}

} // verus!
