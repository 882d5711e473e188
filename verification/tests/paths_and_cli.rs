use hotbolt::cargo::{cargo_lib_name, cargo_path, cargo_target_lib_path, cargo_target_path, CargoProbe};
use hotbolt::cli::{path_validator, Cli, DirProbe, WatcherType};
use hotbolt::paths::{join, library_format, parent_of, str_eq, with_extension};
use hotbolt::project::{hotbolt_project_dir, root_directory, Builder};

#[test]
fn join_glues_with_a_separator() {
    assert_eq!(join("a", "b"), "a/b".to_string());
    assert_eq!(join("a/", "b"), "a/b".to_string());
    assert_eq!(join("", "b"), "b".to_string());
}

#[test]
fn join_lets_an_absolute_child_win() {
    assert_eq!(join("a", "/target"), "/target".to_string());
}

#[test]
fn parent_walks_one_component_up() {
    assert_eq!(parent_of("a/b/c"), Some("a/b".to_string()));
    assert_eq!(parent_of("/a"), Some("/".to_string()));
    assert_eq!(parent_of("a"), Some("".to_string()));
    assert_eq!(parent_of("/"), None);
    assert_eq!(parent_of(""), None);
}

#[test]
fn with_extension_swaps_the_suffix() {
    assert_eq!(
        with_extension("target/debug/libdemo.so", "hotbolt"),
        "target/debug/libdemo.hotbolt".to_string()
    );
    assert_eq!(with_extension("libdemo", "hotbolt"), "libdemo.hotbolt".to_string());
    // A leading dot is a hidden name, not an extension.
    assert_eq!(with_extension("dir/.hidden", "hotbolt"), "dir/.hidden.hotbolt".to_string());
}

#[test]
fn library_format_names_a_shared_object() {
    assert_eq!(library_format("demo"), "libdemo.so".to_string());
}

#[test]
fn str_eq_compares_characters() {
    assert!(str_eq("abc", "abc"));
    assert!(!str_eq("abc", "abd"));
    assert!(!str_eq("abc", "ab"));
    assert!(str_eq("", ""));
}

#[test]
fn watcher_type_parses_exactly_two_names() {
    assert_eq!(WatcherType::from_str("poll"), Ok(WatcherType::Poll));
    assert_eq!(WatcherType::from_str("notify"), Ok(WatcherType::Notify));
    assert_eq!(WatcherType::from_str("inotify"), Err("no match"));
    assert_eq!(WatcherType::from_str(""), Err("no match"));
}

#[test]
fn path_validator_reports_missing_files() {
    assert_eq!(path_validator("somewhere", true), Ok(()));
    assert_eq!(
        path_validator("somewhere", false),
        Err("File `somewhere` does not exist.".to_string())
    );
}

#[test]
fn cargo_path_joins_the_manifest() {
    assert_eq!(cargo_path(&"proj".to_string(), true), Some("proj/Cargo.toml".to_string()));
    assert_eq!(cargo_path(&"proj".to_string(), false), None);
}

#[test]
fn lib_name_prefers_the_lib_section() {
    let manifest = "[package]\nname = \"demo\"\n\n[lib]\nname = \"demolib\"\n";
    let r = cargo_lib_name(&"proj/Cargo.toml".to_string(), Some(manifest));
    assert_eq!(r, Ok("demolib".to_string()));
}

#[test]
fn lib_name_falls_back_to_the_package() {
    let manifest = "[package]\nname = \"demo\"\nversion = \"0.1.0\"\n";
    let r = cargo_lib_name(&"proj/Cargo.toml".to_string(), Some(manifest));
    assert_eq!(r, Ok("demo".to_string()));
}

#[test]
fn lib_name_reports_a_nameless_manifest() {
    let r = cargo_lib_name(&"p/Cargo.toml".to_string(), Some("[dependencies]\n"));
    assert_eq!(
        r,
        Err("Unable to find library name in project `p/Cargo.toml`".to_string())
    );
}

#[test]
fn lib_name_reports_a_broken_manifest() {
    let r = cargo_lib_name(&"p/Cargo.toml".to_string(), Some("= not toml ="));
    assert_eq!(
        r,
        Err("Unable to parse Cargo.toml file in project `p/Cargo.toml`".to_string())
    );
}

#[test]
fn lib_name_reports_an_unreadable_manifest() {
    let r = cargo_lib_name(&"p/Cargo.toml".to_string(), None);
    assert_eq!(
        r,
        Err("Unable to read Cargo.toml file in project `p/Cargo.toml`".to_string())
    );
}

#[test]
fn target_path_prefers_the_local_target() {
    let r = cargo_target_path(&"w/proj".to_string(), true, true, true);
    assert_eq!(r, Ok("w/proj/target".to_string()));
}

#[test]
fn target_path_falls_back_to_the_workspace() {
    let r = cargo_target_path(&"w/proj".to_string(), false, true, true);
    assert_eq!(r, Ok("w/target".to_string()));
    let r = cargo_target_path(&"w/proj".to_string(), false, true, false);
    assert_eq!(r, Err("Invalid target location in `w`".to_string()));
    let r = cargo_target_path(&"w/proj".to_string(), false, false, true);
    assert_eq!(r, Err("Invalid Cargo path in `w`".to_string()));
}

fn probe_with(manifest: &str) -> CargoProbe {
    CargoProbe {
        manifest_is_file: true,
        manifest_text: Some(manifest.to_string()),
        local_target_is_dir: true,
        parent_manifest_is_file: false,
        workspace_target_is_dir: false,
    }
}

#[test]
fn target_lib_path_assembles_the_artifact() {
    let probe = probe_with("[package]\nname = \"demo\"\n");
    let r = cargo_target_lib_path(&"proj".to_string(), "debug", &probe);
    assert_eq!(r, Ok("proj/target/debug/libdemo.so".to_string()));
}

#[test]
fn target_lib_path_needs_a_manifest() {
    let mut probe = probe_with("");
    probe.manifest_is_file = false;
    let r = cargo_target_lib_path(&"plain".to_string(), "debug", &probe);
    assert_eq!(
        r,
        Err("Unable to get lib path of non-Cargo project directory `plain`".to_string())
    );
}

fn cli_for(input: &str, file: bool) -> Cli {
    Cli {
        input: input.to_string(),
        file,
        profile: "debug".to_string(),
        host: "localhost".to_string(),
        port: "49152".to_string(),
        watcher: WatcherType::Poll,
        client: false,
    }
}

#[test]
fn library_path_resolves_a_project_directory() {
    let cli = cli_for("proj", false);
    let probe = DirProbe {
        input_is_dir: true,
        input_is_file: false,
        cargo: probe_with("[package]\nname = \"demo\"\n"),
    };
    assert_eq!(cli.library_path(&probe), Ok("proj/target/debug/libdemo.so".to_string()));
}

#[test]
fn library_path_takes_a_file_as_it_is() {
    let cli = cli_for("libx.so", true);
    let probe = DirProbe { input_is_dir: false, input_is_file: true, cargo: probe_with("") };
    assert_eq!(cli.library_path(&probe), Ok("libx.so".to_string()));
}

#[test]
fn library_path_rejects_mismatched_inputs() {
    let cli = cli_for("libx.so", false);
    let probe = DirProbe { input_is_dir: false, input_is_file: true, cargo: probe_with("") };
    assert_eq!(
        cli.library_path(&probe),
        Err("Must be Cargo project directory `libx.so`".to_string())
    );
    let cli = cli_for("proj", true);
    let probe = DirProbe { input_is_dir: true, input_is_file: false, cargo: probe_with("") };
    assert_eq!(
        cli.library_path(&probe),
        Err("Must be a library project `proj`".to_string())
    );
}

#[test]
fn builder_lays_projects_out_under_scratch() {
    let b = Builder::new("/tmp");
    assert_eq!(b.dir, "/tmp/hotbolt".to_string());
    let p = b.build("counter");
    assert_eq!(p.dir, "/tmp/hotbolt/counter".to_string());
    assert_eq!(p.code, "/tmp/hotbolt/counter/src/lib.rs".to_string());
}

#[test]
fn checkout_layout_is_computed_from_the_manifest_dir() {
    assert_eq!(root_directory("/repo/hotbolt_test"), Some("/repo".to_string()));
    assert_eq!(hotbolt_project_dir("/repo"), "/repo/hotbolt".to_string());
}
