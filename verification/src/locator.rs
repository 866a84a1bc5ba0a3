//! Resolution of the sidecar executable's filesystem path.
//!
//! The launcher tries a packaged-resources location first and falls back to
//! the directory of the running executable. The filesystem itself (does the
//! packaged file exist? where is the resources directory?) is observed by the
//! caller and handed in as plain values; the decision between the two tiers is
//! made — and verified — here.

use vstd::prelude::*;
use vstd::string::StringExecFns;

verus! {

/// The platform-dependent executable name: `firefly-studio.exe` on the
/// Windows family, bare `firefly-studio` otherwise.
pub open spec fn sidecar_name_spec(windows: bool) -> Seq<char> {
    if windows {
        "firefly-studio.exe"@
    } else {
        "firefly-studio"@
    }
}

/// The packaged-deployment path: `<resource_dir>/sidecar/<name>`.
pub open spec fn packaged_path_spec(resource_dir: Seq<char>, windows: bool) -> Seq<char> {
    resource_dir + "/sidecar/"@ + sidecar_name_spec(windows)
}

/// The side-by-side fallback path: `<exe_dir>/<name>`.
pub open spec fn fallback_path_spec(exe_dir: Seq<char>, windows: bool) -> Seq<char> {
    exe_dir + "/"@ + sidecar_name_spec(windows)
}

/// The view of an optional string argument.
pub open spec fn opt_str_view(o: Option<&str>) -> Option<Seq<char>> {
    match o {
        Some(s) => Some(s@),
        None => None,
    }
}

/// Which path the locator resolves to: the packaged path when a resources
/// directory is available and the packaged file is present there, otherwise
/// the fallback beside the executable (whether or not that one exists).
pub open spec fn locate_sidecar_spec(
    resource_dir: Option<Seq<char>>,
    packaged_present: bool,
    exe_dir: Seq<char>,
    windows: bool,
) -> Seq<char> {
    match resource_dir {
        Some(rd) => if packaged_present {
            packaged_path_spec(rd, windows)
        } else {
            fallback_path_spec(exe_dir, windows)
        },
        None => fallback_path_spec(exe_dir, windows),
    }
}

/// The platform-dependent sidecar executable name.
pub fn sidecar_name(windows: bool) -> (r: String)
    ensures
        r@ == sidecar_name_spec(windows),
{
    if windows {
        String::from_str("firefly-studio.exe")
    } else {
        String::from_str("firefly-studio")
    }
}

/// The candidate packaged path, `<resource_dir>/sidecar/<name>`; the caller
/// checks whether a file exists there before resolving.
pub fn packaged_sidecar_path(resource_dir: &str, windows: bool) -> (r: String)
    ensures
        r@ == packaged_path_spec(resource_dir@, windows),
{
    let mut s = String::from_str(resource_dir);
    s.append("/sidecar/");
    let name = sidecar_name(windows);
    s.append(name.as_str());
    proof {
        assert(s@ =~= packaged_path_spec(resource_dir@, windows));
    }
    s
}

/// Resolves the sidecar path from what the caller observed: the packaged
/// resources directory (if the hosting environment provides one), whether the
/// packaged file is present on disk, and the running executable's directory.
pub fn locate_sidecar(
    resource_dir: Option<&str>,
    packaged_present: bool,
    exe_dir: &str,
    windows: bool,
) -> (r: String)
    ensures
        r@ == locate_sidecar_spec(opt_str_view(resource_dir), packaged_present, exe_dir@, windows),
{
    match resource_dir {
        Some(rd) if packaged_present => packaged_sidecar_path(rd, windows),
        _ => {
            let mut s = String::from_str(exe_dir);
            s.append("/");
            let name = sidecar_name(windows);
            s.append(name.as_str());
            proof {
                assert(s@ =~= fallback_path_spec(exe_dir@, windows));
            }
            s
        },
    }
}

} // verus!
