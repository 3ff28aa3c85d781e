use lyon_deck_toolbox::catalog::{LoadError, ToolCatalog};
use lyon_deck_toolbox::install::{
    terminal_args, Action, InstallError, Installation, RunResult, Stage, TERMINAL,
};
use lyon_deck_toolbox::remote::{FetchError, PREAMBLE_PATH};
use lyon_deck_toolbox::text::render_description;

fn fetch_path(a: &Action) -> String {
    match a {
        Action::Fetch(p) => p.clone(),
        other => panic!("expected a fetch, got {other:?}"),
    }
}

fn run_text(a: &Action) -> String {
    match a {
        Action::Run(s) => s.clone(),
        other => panic!("expected a run, got {other:?}"),
    }
}

#[test]
fn root_install_runs_preamble_then_script() {
    let (mut inst, a) = Installation::start("CryoUtilities", true);
    assert_eq!(fetch_path(&a), PREAMBLE_PATH);
    assert_eq!(inst.stage(), Stage::AwaitingPreamble);
    let a = inst.fetched(Ok("sudo -v\n".to_string()));
    assert_eq!(fetch_path(&a), "install_scripts/cryoutilities.sh");
    let a = inst.fetched(Ok("echo install\n".to_string()));
    let blob = run_text(&a);
    assert_eq!(blob, "sudo -v\necho install\n");
    assert!(blob.starts_with("sudo -v\n"));
    assert_eq!(inst.stage(), Stage::Running);
    let a = inst.ran(RunResult::Exited(0));
    assert!(matches!(a, Action::Finish(Ok(()))));
    assert_eq!(inst.stage(), Stage::Finished);
}

#[test]
fn plain_install_runs_script_alone() {
    let (mut inst, a) = Installation::start("My Tool", false);
    assert_eq!(fetch_path(&a), "install_scripts/mytool.sh");
    assert_eq!(inst.title(), "My Tool");
    let a = inst.fetched(Ok("echo mine\n".to_string()));
    assert_eq!(run_text(&a), "echo mine\n");
}

#[test]
fn failed_preamble_fetch_is_download_error() {
    let (mut inst, _) = Installation::start("A", true);
    let a = inst.fetched(Err(FetchError::Network));
    assert!(matches!(a, Action::Finish(Err(InstallError::Download(FetchError::Network)))));
    assert_eq!(inst.stage(), Stage::Finished);
}

#[test]
fn failed_script_fetch_is_download_error() {
    let (mut inst, _) = Installation::start("A", true);
    inst.fetched(Ok("pre\n".to_string()));
    let a = inst.fetched(Err(FetchError::NotFound));
    assert!(matches!(a, Action::Finish(Err(InstallError::Download(FetchError::NotFound)))));
}

#[test]
fn run_outcomes_map_to_errors() {
    let cases = [
        (RunResult::SpawnFailed, Err(InstallError::SpawnFailed)),
        (RunResult::Exited(1), Err(InstallError::ScriptFailed(1))),
        (RunResult::Exited(-3), Err(InstallError::ScriptFailed(-3))),
        (RunResult::Killed, Err(InstallError::Killed)),
        (RunResult::Exited(0), Ok(())),
    ];
    for (run, expected) in cases {
        let (mut inst, _) = Installation::start("A", false);
        inst.fetched(Ok("x".to_string()));
        match inst.ran(run) {
            Action::Finish(r) => assert_eq!(r, expected),
            other => panic!("expected the end, got {other:?}"),
        }
    }
}

#[test]
fn rwfus_end_to_end() {
    let manifest = "- {title: Rwfus, description: 'Line1\\nLine2', repo: 'https://x', needs_root: false}\n";
    let catalog = ToolCatalog::load(Ok(manifest.to_string())).unwrap();
    assert_eq!(catalog.len(), 1);
    let tool = &catalog.tools()[0];
    assert_eq!(tool.title, "Rwfus");
    assert_eq!(render_description(&tool.description).lines().collect::<Vec<_>>(), ["Line1", "Line2"]);
    let (mut inst, a) = catalog.install(0);
    assert_eq!(fetch_path(&a), "install_scripts/rwfus.sh");
    let a = inst.fetched(Ok("echo rwfus\n".to_string()));
    assert_eq!(run_text(&a), "echo rwfus\n");
}

#[test]
fn missing_manifest_fails_load() {
    let r = ToolCatalog::load(Err(FetchError::NotFound));
    assert_eq!(r.unwrap_err(), LoadError::Fetch(FetchError::NotFound));
}

#[test]
fn malformed_manifest_fails_load() {
    let r = ToolCatalog::load(Ok("- {title: A}\n".to_string()));
    assert!(matches!(r, Err(LoadError::Parse(_))));
}

#[test]
fn failed_install_leaves_catalog_usable() {
    let manifest = "- {title: A, description: d, repo: r, needs_root: false}\n- {title: B C, description: d, repo: r, needs_root: true}\n";
    let catalog = ToolCatalog::load(Ok(manifest.to_string())).unwrap();
    let (mut first, _) = catalog.install(0);
    first.fetched(Ok("exit 1\n".to_string()));
    let a = first.ran(RunResult::Exited(1));
    assert!(matches!(a, Action::Finish(Err(InstallError::ScriptFailed(1)))));
    assert_eq!(catalog.len(), 2);
    let (mut second, a) = catalog.install(1);
    assert_eq!(fetch_path(&a), PREAMBLE_PATH);
    let a = second.fetched(Ok("pre\n".to_string()));
    assert_eq!(fetch_path(&a), "install_scripts/bc.sh");
    let (mut again, _) = catalog.install(0);
    again.fetched(Ok("true\n".to_string()));
    assert!(matches!(again.ran(RunResult::Exited(0)), Action::Finish(Ok(()))));
}

#[test]
fn terminal_runs_script_with_sh() {
    assert_eq!(TERMINAL, "konsole");
    assert_eq!(terminal_args("echo a; echo b"), ["-e", "sh", "-c", "echo a; echo b"]);
}
