//! Resolving a freshly built library artifact inside a project directory:
//! where the manifest sits, what the library is called, where the build
//! puts its output, and the artifact path assembled from all three. The
//! manifest text and the answers of the filesystem (which paths are files
//! or directories) are observed outside the library and handed in as plain
//! values; the manifest itself is read by an outside parser behind a
//! trusted wrapper.

use vstd::prelude::*;
use crate::paths::{concat3, join, parent_of, spec_join, spec_parent};

verus! {

/// What the names in a manifest text are: a parse failure, or the values
/// of `lib.name` and `package.name`, each possibly absent. The text alone
/// decides.
pub uninterp spec fn manifest_names(s: Seq<char>) -> Option<(Option<Seq<char>>, Option<Seq<char>>)>;

/// The mathematical image of the wrapper's result.
pub open spec fn names_view(r: Option<(Option<String>, Option<String>)>) -> Option<
    (Option<Seq<char>>, Option<Seq<char>>),
> {
    match r {
        None => None,
        Some((l, p)) => Some(
            (
                match l {
                    None => None,
                    Some(x) => Some(x@),
                },
                match p {
                    None => None,
                    Some(x) => Some(x@),
                },
            ),
        ),
    }
}

/// Relies on `toml::from_str::<toml::Value>` to parse a manifest text, and
/// on `toml::Value::get` and `as_str` to pick `lib.name` and
/// `package.name` out of the parsed document. The result depends on the
/// text alone; `None` is a parse failure.
#[verifier::external_body]
fn parse_manifest_names(s: &str) -> (r: Option<(Option<String>, Option<String>)>)
    ensures
        names_view(r) == manifest_names(s@),
{
    match toml::from_str::<toml::Value>(s) {
        Ok(v) => {
            let lib = v.get("lib").and_then(|t| t.get("name")).and_then(|n| n.as_str()).map(
                String::from,
            );
            let pkg = v.get("package").and_then(|t| t.get("name")).and_then(|n| n.as_str()).map(
                String::from,
            );
            Some((lib, pkg))
        }
        Err(_) => None,
    }
}

/// The mathematical image of an optional path.
pub open spec fn opt_str_view(r: Option<String>) -> Option<Seq<char>> {
    match r {
        None => None,
        Some(p) => Some(p@),
    }
}

/// The mathematical image of a path-or-error result.
pub open spec fn res_view(r: Result<String, String>) -> Result<Seq<char>, Seq<char>> {
    match r {
        Ok(p) => Ok(p@),
        Err(e) => Err(e@),
    }
}

/// Where a project directory's manifest sits, if the filesystem says the
/// joined path is a file.
pub open spec fn spec_cargo_path(dir: Seq<char>, manifest_is_file: bool) -> Option<Seq<char>> {
    if manifest_is_file {
        Some(spec_join(dir, "Cargo.toml"@))
    } else {
        None
    }
}

/// The path of a project directory's manifest; `manifest_is_file` is
/// whether that path resolves to a file.
pub fn cargo_path(dir: &String, manifest_is_file: bool) -> (r: Option<String>)
    ensures
        opt_str_view(r) == spec_cargo_path(dir@, manifest_is_file),
{
    if manifest_is_file {
        Some(join(dir.as_str(), "Cargo.toml"))
    } else {
        None
    }
}

/// The library name a manifest gives a project: `lib.name` where set,
/// `package.name` otherwise; an error names the manifest path.
pub open spec fn spec_cargo_lib_name(path: Seq<char>, content: Option<Seq<char>>) -> Result<
    Seq<char>,
    Seq<char>,
> {
    match content {
        None => Err("Unable to read Cargo.toml file in project `"@ + path + "`"@),
        Some(text) => match manifest_names(text) {
            None => Err("Unable to parse Cargo.toml file in project `"@ + path + "`"@),
            Some((lib, pkg)) => match lib {
                Some(l) => Ok(l),
                None => match pkg {
                    Some(p) => Ok(p),
                    None => Err("Unable to find library name in project `"@ + path + "`"@),
                },
            },
        },
    }
}

/// Reads the library name out of a manifest text; `content` is the text of
/// the manifest at `path`, or nothing when it could not be read.
pub fn cargo_lib_name(path: &String, content: Option<&str>) -> (r: Result<String, String>)
    ensures
        res_view(r) == spec_cargo_lib_name(
            path@,
            match content {
                Some(c) => Some(c@),
                None => None,
            },
        ),
{
    match content {
        None => Err(concat3("Unable to read Cargo.toml file in project `", path.as_str(), "`")),
        Some(text) => match parse_manifest_names(text) {
            None => Err(
                concat3("Unable to parse Cargo.toml file in project `", path.as_str(), "`"),
            ),
            Some((lib, pkg)) => match lib {
                Some(l) => Ok(l),
                None => match pkg {
                    Some(p) => Ok(p),
                    None => Err(
                        concat3(
                            "Unable to find library name in project `",
                            path.as_str(),
                            "`",
                        ),
                    ),
                },
            },
        },
    }
}

/// Where a project's build output sits: the project's own `target`
/// directory where the filesystem confirms one, else the workspace `target`
/// beside a parent manifest; an error names the path that disappointed.
pub open spec fn spec_cargo_target_path(
    dir: Seq<char>,
    local_target_is_dir: bool,
    parent_manifest_is_file: bool,
    workspace_target_is_dir: bool,
) -> Result<Seq<char>, Seq<char>> {
    if local_target_is_dir {
        Ok(spec_join(dir, "target"@))
    } else {
        match spec_parent(dir) {
            None => Err("Unable to find parent path of `"@ + dir + "`"@),
            Some(par) => if parent_manifest_is_file {
                if workspace_target_is_dir {
                    Ok(spec_join(par, "target"@))
                } else {
                    Err("Invalid target location in `"@ + par + "`"@)
                }
            } else {
                Err("Invalid Cargo path in `"@ + par + "`"@)
            },
        }
    }
}

/// Resolves the build-output directory of a project. The three flags are
/// the filesystem's answers: whether `dir/target` is a directory, whether
/// the parent directory holds a manifest, and whether the parent's
/// `target` is a directory.
pub fn cargo_target_path(
    dir: &String,
    local_target_is_dir: bool,
    parent_manifest_is_file: bool,
    workspace_target_is_dir: bool,
) -> (r: Result<String, String>)
    ensures
        res_view(r) == spec_cargo_target_path(
            dir@,
            local_target_is_dir,
            parent_manifest_is_file,
            workspace_target_is_dir,
        ),
{
    if local_target_is_dir {
        Ok(join(dir.as_str(), "target"))
    } else {
        match parent_of(dir.as_str()) {
            None => Err(concat3("Unable to find parent path of `", dir.as_str(), "`")),
            Some(par) => {
                if parent_manifest_is_file {
                    if workspace_target_is_dir {
                        Ok(join(par.as_str(), "target"))
                    } else {
                        Err(concat3("Invalid target location in `", par.as_str(), "`"))
                    }
                } else {
                    Err(concat3("Invalid Cargo path in `", par.as_str(), "`"))
                }
            }
        }
    }
}

/// What the filesystem said about a project directory: whether its
/// manifest is a file and what it holds, and where a `target` directory
/// was found.
pub struct CargoProbe {
    pub manifest_is_file: bool,
    pub manifest_text: Option<String>,
    pub local_target_is_dir: bool,
    pub parent_manifest_is_file: bool,
    pub workspace_target_is_dir: bool,
}

impl CargoProbe {
    /// The mathematical image of the manifest text.
    pub open spec fn text_view(&self) -> Option<Seq<char>> {
        match self.manifest_text {
            None => None,
            Some(t) => Some(t@),
        }
    }
}

/// The artifact a build leaves for a project: the build-output directory,
/// the profile, and the platform file name of the manifest's library name,
/// joined; or the first error on that road.
pub open spec fn spec_cargo_target_lib_path(
    dir: Seq<char>,
    profile: Seq<char>,
    manifest_is_file: bool,
    manifest_text: Option<Seq<char>>,
    local_target_is_dir: bool,
    parent_manifest_is_file: bool,
    workspace_target_is_dir: bool,
) -> Result<Seq<char>, Seq<char>> {
    if !manifest_is_file {
        Err("Unable to get lib path of non-Cargo project directory `"@ + dir + "`"@)
    } else {
        match spec_cargo_lib_name(spec_join(dir, "Cargo.toml"@), manifest_text) {
            Err(e) => Err(e),
            Ok(name) => match spec_cargo_target_path(
                dir,
                local_target_is_dir,
                parent_manifest_is_file,
                workspace_target_is_dir,
            ) {
                Err(e) => Err(e),
                Ok(target) => Ok(
                    spec_join(spec_join(target, profile), "lib"@ + name + ".so"@),
                ),
            },
        }
    }
}

/// Resolves the built artifact of a project directory under the given
/// profile, from the filesystem's answers in `probe`.
pub fn cargo_target_lib_path(dir: &String, profile: &str, probe: &CargoProbe) -> (r: Result<
    String,
    String,
>)
    ensures
        res_view(r) == spec_cargo_target_lib_path(
            dir@,
            profile@,
            probe.manifest_is_file,
            probe.text_view(),
            probe.local_target_is_dir,
            probe.parent_manifest_is_file,
            probe.workspace_target_is_dir,
        ),
{
    match cargo_path(dir, probe.manifest_is_file) {
        None => Err(
            concat3("Unable to get lib path of non-Cargo project directory `", dir.as_str(), "`"),
        ),
        Some(manifest_path) => {
            let content: Option<&str> = match &probe.manifest_text {
                Some(t) => Some(t.as_str()),
                None => None,
            };
            let name = match cargo_lib_name(&manifest_path, content) {
                Ok(n) => n,
                Err(e) => {
                    return Err(e);
                }
            };
            let file = crate::paths::library_format(name.as_str());
            match cargo_target_path(
                dir,
                probe.local_target_is_dir,
                probe.parent_manifest_is_file,
                probe.workspace_target_is_dir,
            ) {
                Ok(target) => {
                    let with_profile = join(target.as_str(), profile);
                    Ok(join(with_profile.as_str(), file.as_str()))
                }
                Err(e) => Err(e),
            }
        }
    }
}

} // verus!
