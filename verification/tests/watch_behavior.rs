use elm_dev::events::{event_qualifies, ChangeEvent, ChangeEventKind, ModifyEventKind};
use elm_dev::watch::{launch_failure_is_fatal, should_serve, watch_step, WatchAction};

fn event_with(kind: ChangeEventKind, paths: &[&str]) -> ChangeEvent {
    ChangeEvent { kind, paths: paths.iter().map(|p| p.to_string()).collect() }
}

#[test]
fn other_extension_never_triggers() {
    let e = event_with(
        ChangeEventKind::Modify(ModifyEventKind::Data),
        &["./src/Main.rs", "./src/notes.txt", "./src/elm.js"],
    );
    assert!(!event_qualifies(&e));
    let delivery: Result<ChangeEvent, String> = Ok(e);
    assert_eq!(watch_step(&delivery), WatchAction::Ignore);
}

#[test]
fn metadata_only_modify_never_triggers() {
    let e = event_with(ChangeEventKind::Modify(ModifyEventKind::Metadata), &["./src/Main.elm"]);
    assert!(!event_qualifies(&e));
    let delivery: Result<ChangeEvent, String> = Ok(e);
    assert_eq!(watch_step(&delivery), WatchAction::Ignore);
}

#[test]
fn data_modify_on_source_triggers() {
    let e = event_with(ChangeEventKind::Modify(ModifyEventKind::Data), &["./src/Main.elm"]);
    assert!(event_qualifies(&e));
    let delivery: Result<ChangeEvent, String> = Ok(e);
    assert_eq!(watch_step(&delivery), WatchAction::TriggerBuild);
}

#[test]
fn one_source_path_among_others_triggers() {
    let e = event_with(
        ChangeEventKind::Modify(ModifyEventKind::Data),
        &["./src/README.md", "./src/Page/Home.elm"],
    );
    let delivery: Result<ChangeEvent, String> = Ok(e);
    assert_eq!(watch_step(&delivery), WatchAction::TriggerBuild);
}

#[test]
fn create_on_source_path_ignored() {
    let e = event_with(ChangeEventKind::Create, &["./src/Main.elm"]);
    let delivery: Result<ChangeEvent, String> = Ok(e);
    assert_eq!(watch_step(&delivery), WatchAction::Ignore);
}

#[test]
fn remove_on_source_path_ignored() {
    let e = event_with(ChangeEventKind::Remove, &["./src/Main.elm"]);
    let delivery: Result<ChangeEvent, String> = Ok(e);
    assert_eq!(watch_step(&delivery), WatchAction::Ignore);
}

#[test]
fn rename_modify_on_source_path_ignored() {
    let e = event_with(ChangeEventKind::Modify(ModifyEventKind::Rename), &["./src/Main.elm"]);
    let delivery: Result<ChangeEvent, String> = Ok(e);
    assert_eq!(watch_step(&delivery), WatchAction::Ignore);
}

#[test]
fn event_without_paths_ignored() {
    let e = event_with(ChangeEventKind::Modify(ModifyEventKind::Data), &[]);
    let delivery: Result<ChangeEvent, String> = Ok(e);
    assert_eq!(watch_step(&delivery), WatchAction::Ignore);
}

#[test]
fn delivery_error_is_reported_and_recovered() {
    let delivery: Result<ChangeEvent, String> = Err("watch backend gone".to_string());
    assert_eq!(watch_step(&delivery), WatchAction::ReportError);
}

#[test]
fn launch_failure_mid_watch_is_fatal() {
    let failed: Result<(), String> = Err("No such file or directory (os error 2)".to_string());
    assert!(launch_failure_is_fatal(&failed));
    let launched: Result<(), String> = Ok(());
    assert!(!launch_failure_is_fatal(&launched));
}

#[test]
fn failed_initial_launch_blocks_serving() {
    let failed: Result<(), String> = Err("No such file or directory (os error 2)".to_string());
    assert!(!should_serve(&failed));
}

#[test]
fn successful_initial_launch_allows_serving() {
    let launched: Result<(), String> = Ok(());
    assert!(should_serve(&launched));
}
