//! The binary-provisioning lifecycle: installation decisions and
//! cached-binary discovery.

use json_lsp_adapter::adapter::JsonLspAdapter;
use json_lsp_adapter::cache::{cached_binary_from_probe, select_version_dir, ScanEntry};
use json_lsp_adapter::installer::{
    ensure_binary_start, ensure_binary_step, expected_entry_point, server_binary_arguments,
    AdapterError, InstallAction, InstallEvent, InstallOutcome, InstallPhase, LaunchDescriptor,
    VersionToken,
};
use json_lsp_adapter::paths::AbsPath;

fn abs(components: &[&str]) -> AbsPath {
    AbsPath { components: components.iter().map(|c| c.to_string()).collect() }
}

fn entry(name: &str, is_dir: bool) -> ScanEntry {
    ScanEntry { name: name.to_string(), is_dir }
}

const ENTRY_POINT_SUFFIX: [&str; 4] =
    ["node_modules", "vscode-json-languageserver", "bin", "vscode-json-languageserver"];

#[test]
fn expected_entry_point_is_fixed_relative_path() {
    let container = abs(&["ext", "json"]);
    let entry_point = expected_entry_point(&container);
    let mut expected = vec!["ext".to_string(), "json".to_string()];
    expected.extend(ENTRY_POINT_SUFFIX.iter().map(|c| c.to_string()));
    assert_eq!(entry_point.components, expected);
}

#[test]
fn fresh_container_install_flow() {
    let container = abs(&["ext", "json"]);
    let version = VersionToken { text: "1.2.3".to_string() };
    let (state, action) = ensure_binary_start(version, container);

    let probed = match action {
        InstallAction::ProbeEntryPoint(p) => p,
        _ => panic!("expected a probe first"),
    };
    assert_eq!(
        probed.components.iter().map(|c| c.as_str()).collect::<Vec<_>>(),
        vec![
            "ext",
            "json",
            "node_modules",
            "vscode-json-languageserver",
            "bin",
            "vscode-json-languageserver",
        ],
    );

    // The entry point does not exist yet, so an install is requested.
    let (state, action) = match ensure_binary_step(state, InstallEvent::EntryPointProbed(false)) {
        InstallOutcome::Next(s, a) => (s, a),
        InstallOutcome::Finished(_) => panic!("expected another action"),
    };
    match &action {
        InstallAction::InstallPackage(name, version, dir) => {
            assert_eq!(name, "vscode-json-languageserver");
            assert_eq!(version.text, "1.2.3");
            assert_eq!(dir.components, vec!["ext".to_string(), "json".to_string()]);
        }
        _ => panic!("expected an install"),
    }

    let (state, action) = match ensure_binary_step(state, InstallEvent::InstallFinished(true)) {
        InstallOutcome::Next(s, a) => (s, a),
        InstallOutcome::Finished(_) => panic!("expected another action"),
    };
    assert!(matches!(action, InstallAction::QueryRuntimePath));

    let runtime = abs(&["usr", "local", "bin", "node"]);
    let descriptor = match ensure_binary_step(
        state,
        InstallEvent::RuntimePathResolved(Some(runtime)),
    ) {
        InstallOutcome::Finished(Ok(d)) => d,
        _ => panic!("expected a launch descriptor"),
    };
    assert_eq!(
        descriptor.executable.components,
        vec!["usr".to_string(), "local".to_string(), "bin".to_string(), "node".to_string()],
    );
    assert_eq!(
        descriptor.arguments,
        vec![
            "/ext/json/node_modules/vscode-json-languageserver/bin/vscode-json-languageserver"
                .to_string(),
            "--stdio".to_string(),
        ],
    );
}

#[test]
fn existing_install_short_circuits() {
    let container = abs(&["ext", "json"]);
    let version = VersionToken { text: "1.2.3".to_string() };
    let (state, _) = ensure_binary_start(version, container);

    // The entry point already exists: the next action resolves the runtime,
    // and no install is ever requested.
    let (state, action) = match ensure_binary_step(state, InstallEvent::EntryPointProbed(true)) {
        InstallOutcome::Next(s, a) => (s, a),
        InstallOutcome::Finished(_) => panic!("expected another action"),
    };
    assert!(matches!(action, InstallAction::QueryRuntimePath));
    assert!(matches!(state.phase, InstallPhase::AwaitingRuntime));

    let runtime = abs(&["usr", "bin", "node"]);
    match ensure_binary_step(state, InstallEvent::RuntimePathResolved(Some(runtime))) {
        InstallOutcome::Finished(Ok(d)) => {
            assert_eq!(d.arguments.len(), 2);
            assert_eq!(d.arguments[1], "--stdio");
        }
        _ => panic!("expected a launch descriptor"),
    }
}

#[test]
fn failed_install_is_reported() {
    let container = abs(&["ext", "json"]);
    let version = VersionToken { text: "1.2.3".to_string() };
    let (state, _) = ensure_binary_start(version, container);
    let (state, _) = match ensure_binary_step(state, InstallEvent::EntryPointProbed(false)) {
        InstallOutcome::Next(s, a) => (s, a),
        InstallOutcome::Finished(_) => panic!("expected another action"),
    };
    match ensure_binary_step(state, InstallEvent::InstallFinished(false)) {
        InstallOutcome::Finished(Err(e)) => assert_eq!(e, AdapterError::InstallFailed),
        _ => panic!("expected the install failure"),
    }
}

#[test]
fn missing_runtime_is_reported() {
    let container = abs(&["ext", "json"]);
    let version = VersionToken { text: "1.2.3".to_string() };
    let (state, _) = ensure_binary_start(version, container);
    let (state, _) = match ensure_binary_step(state, InstallEvent::EntryPointProbed(true)) {
        InstallOutcome::Next(s, a) => (s, a),
        InstallOutcome::Finished(_) => panic!("expected another action"),
    };
    match ensure_binary_step(state, InstallEvent::RuntimePathResolved(None)) {
        InstallOutcome::Finished(Err(e)) => assert_eq!(e, AdapterError::RuntimeUnavailable),
        _ => panic!("expected the runtime failure"),
    }
}

#[test]
fn fresh_container_is_a_cache_miss() {
    let container = abs(&["ext", "json"]);
    let entries: Vec<ScanEntry> = Vec::new();
    assert!(select_version_dir(&container, &entries).is_none());
}

#[test]
fn scan_picks_the_last_directory_entry() {
    let container = abs(&["ext", "json"]);
    let entries = vec![entry("1.2.3", true), entry("1.2.2", true)];
    let dir = select_version_dir(&container, &entries).expect("a directory was scanned");
    assert_eq!(
        dir.components,
        vec!["ext".to_string(), "json".to_string(), "1.2.2".to_string()],
    );
}

#[test]
fn scan_ignores_plain_files() {
    let container = abs(&["ext", "json"]);
    let entries = vec![entry("1.2.3", true), entry("notes.txt", false)];
    let dir = select_version_dir(&container, &entries).expect("a directory was scanned");
    assert_eq!(
        dir.components,
        vec!["ext".to_string(), "json".to_string(), "1.2.3".to_string()],
    );

    let only_files = vec![entry("notes.txt", false)];
    assert!(select_version_dir(&container, &only_files).is_none());
}

#[test]
fn invalid_last_directory_is_not_accepted() {
    // One valid installation ("1.2.3") and one without an entry point
    // ("1.2.2"), enumerated last: the scan trusts its last directory, whose
    // probe fails, so the lookup is a miss rather than a wrong descriptor.
    let container = abs(&["ext", "json"]);
    let entries = vec![entry("1.2.3", true), entry("1.2.2", true)];
    let dir = select_version_dir(&container, &entries).expect("a directory was scanned");
    let entry_point = expected_entry_point(&dir);
    let entry_point_exists = false;
    let runtime = Some(abs(&["usr", "bin", "node"]));
    assert!(cached_binary_from_probe(&entry_point, entry_point_exists, runtime).is_none());
}

#[test]
fn valid_cached_binary_is_returned() {
    let container = abs(&["ext", "json"]);
    let entries = vec![entry("1.2.2", true), entry("1.2.3", true)];
    let dir = select_version_dir(&container, &entries).expect("a directory was scanned");
    let entry_point = expected_entry_point(&dir);
    let runtime = Some(abs(&["usr", "bin", "node"]));
    let descriptor: LaunchDescriptor =
        cached_binary_from_probe(&entry_point, true, runtime).expect("a cached binary");
    assert_eq!(
        descriptor.executable.components,
        vec!["usr".to_string(), "bin".to_string(), "node".to_string()],
    );
    assert_eq!(
        descriptor.arguments,
        vec![
            "/ext/json/1.2.3/node_modules/vscode-json-languageserver/bin/vscode-json-languageserver"
                .to_string(),
            "--stdio".to_string(),
        ],
    );
}

#[test]
fn cache_miss_without_runtime() {
    let entry_point = abs(&["ext", "json", "1.2.3", "bin", "server"]);
    assert!(cached_binary_from_probe(&entry_point, true, None).is_none());
}

#[test]
fn server_binary_arguments_end_with_stdio_flag() {
    let server_path = abs(&["ext", "json", "bin", "server"]);
    let args = server_binary_arguments(&server_path);
    assert_eq!(
        args,
        vec!["/ext/json/bin/server".to_string(), "--stdio".to_string()],
    );
}

#[test]
fn version_lookup_result_is_typed() {
    let adapter = JsonLspAdapter::new();
    let token = adapter
        .resolve_latest_version(Some("1.2.3".to_string()))
        .expect("the registry answered");
    assert_eq!(token.text, "1.2.3");

    match adapter.resolve_latest_version(None) {
        Err(err) => assert_eq!(err, AdapterError::UpstreamUnavailable),
        Ok(_) => panic!("a missing answer must be an error"),
    }
}
