//! The command line as the runtime sees it once parsing is done: the plain
//! values of every flag, and the resolution of the input argument to a
//! library path. Argument parsing itself and the filesystem checks live
//! outside the library; their answers arrive here as plain values.

use vstd::prelude::*;
use crate::cargo::{cargo_target_lib_path, res_view, spec_cargo_target_lib_path, CargoProbe};
use crate::paths::{concat3, str_eq};

verus! {

broadcast use vstd::string::group_string_axioms;

/// Which watcher strategy the server runs.
#[derive(Debug, Clone, Copy, PartialEq, Eq, Structural)]
pub enum WatcherType {
    Poll,
    Notify,
}

impl WatcherType {
    /// Reads a watcher name: exactly `poll` and `notify` are accepted.
    pub fn from_str(s: &str) -> (r: Result<WatcherType, &'static str>)
        ensures
            r == Ok::<WatcherType, &'static str>(WatcherType::Poll) <==> s@ == "poll"@,
            r == Ok::<WatcherType, &'static str>(WatcherType::Notify) <==> s@ == "notify"@,
            r matches Err(e) ==> e@ == "no match"@ && s@ != "poll"@ && s@ != "notify"@,
    {
        proof {
            // The two accepted names differ, so at most one branch answers.
            reveal_strlit("poll");
            reveal_strlit("notify");
            assert("poll"@.len() != "notify"@.len());
        }
        if str_eq(s, "poll") {
            Ok(WatcherType::Poll)
        } else if str_eq(s, "notify") {
            Ok(WatcherType::Notify)
        } else {
            Err("no match")
        }
    }
}

/// The command line, parsed: the input path (a project directory, or a
/// library file under `--file`), the build profile, the control-socket
/// host and port, the watcher strategy, and whether this process is the
/// client.
pub struct Cli {
    pub input: String,
    pub file: bool,
    pub profile: String,
    pub host: String,
    pub port: String,
    pub watcher: WatcherType,
    pub client: bool,
}

/// What the filesystem said about the input path: whether it is a
/// directory or a file, and the project probe for the directory case.
pub struct DirProbe {
    pub input_is_dir: bool,
    pub input_is_file: bool,
    pub cargo: CargoProbe,
}

/// Checks that the input path exists at all; `exists` is the filesystem's
/// answer.
pub fn path_validator(input: &str, exists: bool) -> (r: Result<(), String>)
    ensures
        r is Ok <==> exists,
        r matches Err(e) ==> e@ == "File `"@ + input@ + "` does not exist."@,
{
    if exists {
        Ok(())
    } else {
        Err(concat3("File `", input, "` does not exist."))
    }
}

/// Where the library artifact is: under `--file` the input itself, if it
/// is a file; otherwise the project directory's built artifact.
pub open spec fn spec_library_path(
    input: Seq<char>,
    file_flag: bool,
    profile: Seq<char>,
    input_is_dir: bool,
    input_is_file: bool,
    manifest_is_file: bool,
    manifest_text: Option<Seq<char>>,
    local_target_is_dir: bool,
    parent_manifest_is_file: bool,
    workspace_target_is_dir: bool,
) -> Result<Seq<char>, Seq<char>> {
    if !file_flag {
        if input_is_dir {
            spec_cargo_target_lib_path(
                input,
                profile,
                manifest_is_file,
                manifest_text,
                local_target_is_dir,
                parent_manifest_is_file,
                workspace_target_is_dir,
            )
        } else {
            Err("Must be Cargo project directory `"@ + input + "`"@)
        }
    } else {
        if input_is_file {
            Ok(input)
        } else {
            Err("Must be a library project `"@ + input + "`"@)
        }
    }
}

impl Cli {
    /// Resolves the input argument to the library artifact to watch and
    /// load, from the filesystem's answers in `probe`.
    pub fn library_path(&self, probe: &DirProbe) -> (r: Result<String, String>)
        ensures
            res_view(r) == spec_library_path(
                self.input@,
                self.file,
                self.profile@,
                probe.input_is_dir,
                probe.input_is_file,
                probe.cargo.manifest_is_file,
                probe.cargo.text_view(),
                probe.cargo.local_target_is_dir,
                probe.cargo.parent_manifest_is_file,
                probe.cargo.workspace_target_is_dir,
            ),
    {
        if !self.file {
            if probe.input_is_dir {
                cargo_target_lib_path(&self.input, self.profile.as_str(), &probe.cargo)
            } else {
                Err(concat3("Must be Cargo project directory `", self.input.as_str(), "`"))
            }
        } else {
            if probe.input_is_file {
                Ok(self.input.clone())
            } else {
                Err(concat3("Must be a library project `", self.input.as_str(), "`"))
            }
        }
    }
}

} // verus!
