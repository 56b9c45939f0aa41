use contemplate::action::{Action, Event};
use contemplate::error::Error;
use contemplate::pipeline::{Pipeline, Stage};
use contemplate::resolver::TemplateTable;
use contemplate::template::TemplateEntry;

type Row = (&'static str, (&'static str, Option<&'static str>, Option<&'static str>));

const REPO: &str = "https://example.com/team/x.git";

fn table_of(rows: Vec<Row>) -> TemplateTable {
    let keys: Vec<&'static str> = rows.iter().map(|row| row.0).collect();
    let state = phf_generator::generate_hash(&keys);
    let placed: Vec<Row> = state.map.iter().map(|&index| rows[index]).collect();
    phf::Map {
        key: state.key,
        disps: Box::leak(state.disps.into_boxed_slice()),
        entries: Box::leak(placed.into_boxed_slice()),
    }
}

fn demo_table() -> TemplateTable {
    table_of(vec![
        ("demo", (REPO, Some("main"), None)),
        ("demo-sub", (REPO, Some("feature"), Some("pkg/widget"))),
    ])
}

fn whole_tree() -> TemplateEntry {
    TemplateEntry { location: REPO.to_string(), branch: Some("main".to_string()), subdirectory: None }
}

fn subtree() -> TemplateEntry {
    TemplateEntry {
        location: REPO.to_string(),
        branch: Some("feature".to_string()),
        subdirectory: Some("pkg/widget".to_string()),
    }
}

fn staged(entry: TemplateEntry, destination: &str) -> Pipeline {
    Pipeline::begin(entry, "/tmp/Ab3dE9x".to_string(), destination.to_string())
        .advance(Event::WorkingDirectory("/home/user/work".to_string()))
        .advance(Event::Completed)
}

fn probed(entry: TemplateEntry, destination: &str) -> Pipeline {
    staged(entry, destination).advance(Event::Completed)
}

fn staging_path_of(action: &Action) -> String {
    match action {
        Action::Fetch { staging_path, .. } => staging_path.clone(),
        other => panic!("unexpected action {:?}", other),
    }
}

#[test]
fn demo_scenario_materializes_the_whole_tree() {
    let table = demo_table();
    let mut run = Pipeline::start(&table, "demo", "myproj".to_string());
    assert_eq!(run.stage(), Stage::Start);
    assert_eq!(run.action(), Action::ReadWorkingDirectory);

    run = run.advance(Event::WorkingDirectory("/home/user/work".to_string()));
    assert_eq!(run.stage(), Stage::Resolved);
    let staging = staging_path_of(&run.action());
    let token = staging.strip_prefix("/tmp/").expect("staged under the temporary area");
    assert_eq!(token.len(), 7);
    assert!(token.chars().all(|c| c.is_ascii_alphanumeric()));
    assert_eq!(
        run.action(),
        Action::Fetch {
            location: REPO.to_string(),
            branch: Some("main".to_string()),
            staging_path: staging.clone(),
        }
    );

    run = run.advance(Event::Completed);
    assert_eq!(run.stage(), Stage::Staged);
    assert_eq!(
        run.action(),
        Action::ProbeDestination { path: "/home/user/work/myproj".to_string() }
    );

    run = run.advance(Event::Completed);
    assert_eq!(run.stage(), Stage::Staged);
    assert_eq!(
        run.action(),
        Action::CopyDir { from: staging.clone(), into: "/home/user/work".to_string() }
    );

    run = run.advance(Event::Completed);
    assert_eq!(run.stage(), Stage::Staged);
    assert_eq!(
        run.action(),
        Action::Rename {
            from: format!("/home/user/work/{}", token),
            to: "/home/user/work/myproj".to_string(),
        }
    );

    run = run.advance(Event::Completed);
    assert_eq!(run.stage(), Stage::Staged);
    assert_eq!(
        run.action(),
        Action::RemoveDir { path: "/home/user/work/myproj/.git".to_string() }
    );

    run = run.advance(Event::Completed);
    assert_eq!(run.stage(), Stage::Materialized);
    assert_eq!(run.action(), Action::Finish);

    run = run.advance(Event::Completed);
    assert_eq!(run.stage(), Stage::Done);
    assert_eq!(run.action(), Action::Halt);
    assert_eq!(run.error(), None);
}

#[test]
fn demo_sub_scenario_materializes_the_subdirectory() {
    let table = demo_table();
    let mut run = Pipeline::start(&table, "demo-sub", "widget".to_string());
    assert_eq!(run.action(), Action::ReadWorkingDirectory);

    run = run.advance(Event::WorkingDirectory("/home/user/work".to_string()));
    let staging = staging_path_of(&run.action());
    assert_eq!(
        run.action(),
        Action::Fetch {
            location: REPO.to_string(),
            branch: Some("feature".to_string()),
            staging_path: staging.clone(),
        }
    );

    run = run.advance(Event::Completed);
    assert_eq!(
        run.action(),
        Action::ProbeDestination { path: "/home/user/work/widget".to_string() }
    );

    run = run.advance(Event::Completed);
    assert_eq!(
        run.action(),
        Action::CopyDir {
            from: format!("{}/pkg/widget", staging),
            into: "/home/user/work".to_string(),
        }
    );

    run = run.advance(Event::Completed);
    assert_eq!(
        run.action(),
        Action::Rename {
            from: "/home/user/work/widget".to_string(),
            to: "/home/user/work/widget".to_string(),
        }
    );

    run = run.advance(Event::Completed);
    assert_eq!(run.stage(), Stage::Materialized);
    assert_eq!(run.action(), Action::Finish);

    run = run.advance(Event::Completed);
    assert_eq!(run.stage(), Stage::Done);
    assert_eq!(run.action(), Action::Halt);
}

#[test]
fn unknown_identifier_fails_before_any_outside_work() {
    let table = demo_table();
    let mut run = Pipeline::start(&table, "nonesuch", "myproj".to_string());
    assert_eq!(run.stage(), Stage::Failed);
    assert_eq!(run.error(), Some(Error::UnknownTemplate));
    assert_eq!(run.action(), Action::Abort { error: Error::UnknownTemplate });
    for event in [
        Event::WorkingDirectory("/home/user/work".to_string()),
        Event::Completed,
        Event::Failed,
        Event::Completed,
    ] {
        run = run.advance(event);
        assert_eq!(run.stage(), Stage::Failed);
        assert_eq!(run.action(), Action::Abort { error: Error::UnknownTemplate });
    }
}

#[test]
fn destination_name_does_not_depend_on_the_repository() {
    for location in ["https://example.com/a.git", "https://example.org/team/other-name"] {
        let entry =
            TemplateEntry { location: location.to_string(), branch: None, subdirectory: None };
        let run = probed(entry, "myproj").advance(Event::Completed);
        assert_eq!(
            run.action(),
            Action::Rename {
                from: "/home/user/work/Ab3dE9x".to_string(),
                to: "/home/user/work/myproj".to_string(),
            }
        );
    }
}

#[test]
fn fetch_without_branch_checks_out_the_default_branch() {
    let entry = TemplateEntry { location: REPO.to_string(), branch: None, subdirectory: None };
    let run = Pipeline::begin(entry, "/tmp/Ab3dE9x".to_string(), "myproj".to_string())
        .advance(Event::WorkingDirectory("/w".to_string()));
    assert_eq!(
        run.action(),
        Action::Fetch {
            location: REPO.to_string(),
            branch: None,
            staging_path: "/tmp/Ab3dE9x".to_string(),
        }
    );
}

#[test]
fn unreadable_working_directory_ends_the_run() {
    for event in [Event::Failed, Event::Completed] {
        let run = Pipeline::begin(whole_tree(), "/tmp/Ab3dE9x".to_string(), "myproj".to_string())
            .advance(event);
        assert_eq!(run.stage(), Stage::Failed);
        assert_eq!(run.error(), Some(Error::WorkingDirectoryUnavailable));
        assert_eq!(run.action(), Action::Abort { error: Error::WorkingDirectoryUnavailable });
    }
}

#[test]
fn failed_fetch_ends_the_run() {
    let run = Pipeline::begin(whole_tree(), "/tmp/Ab3dE9x".to_string(), "myproj".to_string())
        .advance(Event::WorkingDirectory("/w".to_string()))
        .advance(Event::Failed);
    assert_eq!(run.error(), Some(Error::FetchFailure));
    assert_eq!(run.action(), Action::Abort { error: Error::FetchFailure });
}

#[test]
fn failed_copy_ends_the_run_with_a_copy_fault() {
    for entry in [whole_tree(), subtree()] {
        let run = probed(entry, "myproj").advance(Event::Failed);
        assert_eq!(run.error(), Some(Error::CopyFault));
        assert_eq!(run.action(), Action::Abort { error: Error::CopyFault });
        let run = run.advance(Event::Completed);
        assert_eq!(run.action(), Action::Abort { error: Error::CopyFault });
    }
}

#[test]
fn failed_rename_ends_the_run_with_a_rename_fault() {
    for entry in [whole_tree(), subtree()] {
        let run = probed(entry, "myproj").advance(Event::Completed).advance(Event::Failed);
        assert_eq!(run.error(), Some(Error::RenameFault));
        assert_eq!(run.action(), Action::Abort { error: Error::RenameFault });
        let run = run.advance(Event::Completed);
        assert_eq!(run.stage(), Stage::Failed);
        assert_eq!(run.action(), Action::Abort { error: Error::RenameFault });
    }
}

#[test]
fn failed_metadata_removal_ends_the_run() {
    let run = probed(whole_tree(), "myproj")
        .advance(Event::Completed)
        .advance(Event::Completed)
        .advance(Event::Failed);
    assert_eq!(run.error(), Some(Error::MetadataRemovalFault));
    assert_eq!(run.action(), Action::Abort { error: Error::MetadataRemovalFault });
}

#[test]
fn subtree_mode_removes_nothing() {
    let mut run = Pipeline::begin(subtree(), "/tmp/Ab3dE9x".to_string(), "w".to_string());
    let mut actions = Vec::new();
    loop {
        let action = run.action();
        let event = match &action {
            Action::ReadWorkingDirectory => Event::WorkingDirectory("/work".to_string()),
            Action::Halt | Action::Abort { .. } => break,
            _ => Event::Completed,
        };
        actions.push(action);
        run = run.advance(event);
    }
    assert_eq!(
        actions,
        vec![
            Action::ReadWorkingDirectory,
            Action::Fetch {
                location: REPO.to_string(),
                branch: Some("feature".to_string()),
                staging_path: "/tmp/Ab3dE9x".to_string(),
            },
            Action::ProbeDestination { path: "/work/w".to_string() },
            Action::CopyDir { from: "/tmp/Ab3dE9x/pkg/widget".to_string(), into: "/work".to_string() },
            Action::Rename { from: "/work/widget".to_string(), to: "/work/w".to_string() },
            Action::Finish,
        ]
    );
    assert_eq!(run.stage(), Stage::Done);
}

#[test]
fn finished_run_stays_finished() {
    let mut run = probed(subtree(), "w")
        .advance(Event::Completed)
        .advance(Event::Completed)
        .advance(Event::Completed);
    assert_eq!(run.stage(), Stage::Done);
    for event in [Event::Failed, Event::Completed, Event::WorkingDirectory("/x".to_string())] {
        run = run.advance(event);
        assert_eq!(run.stage(), Stage::Done);
        assert_eq!(run.action(), Action::Halt);
        assert_eq!(run.error(), None);
    }
}

#[test]
fn stages_are_passed_in_order() {
    let mut run = Pipeline::begin(whole_tree(), "/tmp/Ab3dE9x".to_string(), "p".to_string());
    let mut stages = vec![run.stage()];
    run = run.advance(Event::WorkingDirectory("/w".to_string()));
    stages.push(run.stage());
    for _ in 0..7 {
        run = run.advance(Event::Completed);
        stages.push(run.stage());
    }
    assert_eq!(
        stages,
        vec![
            Stage::Start,
            Stage::Resolved,
            Stage::Staged,
            Stage::Staged,
            Stage::Staged,
            Stage::Staged,
            Stage::Materialized,
            Stage::Done,
            Stage::Done,
        ]
    );
}

#[test]
fn run_that_failed_before_it_began() {
    let run = Pipeline::failed(Error::MalformedLocation);
    assert_eq!(run.stage(), Stage::Failed);
    assert_eq!(run.error(), Some(Error::MalformedLocation));
    assert_eq!(run.action(), Action::Abort { error: Error::MalformedLocation });
}

#[test]
fn taken_destination_ends_the_run_before_anything_is_written() {
    for entry in [whole_tree(), subtree()] {
        let mut run = Pipeline::begin(entry, "/tmp/Ab3dE9x".to_string(), "myproj".to_string());
        let mut asked = Vec::new();
        loop {
            let action = run.action();
            let event = match &action {
                Action::ReadWorkingDirectory => Event::WorkingDirectory("/work".to_string()),
                Action::ProbeDestination { .. } => Event::Failed,
                Action::Halt | Action::Abort { .. } => break,
                _ => Event::Completed,
            };
            asked.push(action);
            run = run.advance(event);
        }
        assert_eq!(asked.len(), 3);
        assert_eq!(asked[0], Action::ReadWorkingDirectory);
        assert!(matches!(asked[1], Action::Fetch { .. }));
        assert_eq!(asked[2], Action::ProbeDestination { path: "/work/myproj".to_string() });
        assert_eq!(run.stage(), Stage::Failed);
        assert_eq!(run.error(), Some(Error::RenameFault));
        assert_eq!(run.action(), Action::Abort { error: Error::RenameFault });
        let run = run.advance(Event::Completed);
        assert_eq!(run.action(), Action::Abort { error: Error::RenameFault });
    }
}

#[test]
fn destination_is_looked_at_before_the_copy() {
    let run = staged(whole_tree(), "myproj");
    assert_eq!(run.stage(), Stage::Staged);
    assert_eq!(run.action(), Action::ProbeDestination { path: "/home/user/work/myproj".to_string() });
    let run = run.advance(Event::Completed);
    assert!(matches!(run.action(), Action::CopyDir { .. }));
}

#[test]
fn working_directory_around_the_staging_path_ends_the_run() {
    for directory in ["/tmp", "/tmp/", "/", ""] {
        let run = Pipeline::begin(whole_tree(), "/tmp/Ab3dE9x".to_string(), "myproj".to_string())
            .advance(Event::WorkingDirectory(directory.to_string()));
        assert_eq!(run.stage(), Stage::Failed, "{:?}", directory);
        assert_eq!(run.error(), Some(Error::WorkingDirectoryUnavailable));
        assert_eq!(run.action(), Action::Abort { error: Error::WorkingDirectoryUnavailable });
    }
}

#[test]
fn working_directory_at_or_inside_the_staging_path_ends_the_run() {
    for directory in ["/tmp/Ab3dE9x", "/tmp/Ab3dE9x/pkg", "/tmp/Ab3dE9x/a/b"] {
        let run = Pipeline::begin(subtree(), "/tmp/Ab3dE9x".to_string(), "myproj".to_string())
            .advance(Event::WorkingDirectory(directory.to_string()));
        assert_eq!(run.error(), Some(Error::WorkingDirectoryUnavailable), "{:?}", directory);
        let run = run.advance(Event::Completed);
        assert_eq!(run.action(), Action::Abort { error: Error::WorkingDirectoryUnavailable });
    }
}

#[test]
fn working_directory_beside_the_staging_path_is_accepted() {
    for directory in ["/tmp/Ab3dE9", "/tmp/Ab3dE9xy", "/tmp/other", "/var/tmp", "/home/user"] {
        let run = Pipeline::begin(subtree(), "/tmp/Ab3dE9x".to_string(), "myproj".to_string())
            .advance(Event::WorkingDirectory(directory.to_string()));
        assert_eq!(run.stage(), Stage::Resolved, "{:?}", directory);
        assert_eq!(run.error(), None);
    }
}

#[test]
fn allocated_staging_path_is_refused_as_the_working_directory() {
    let table = demo_table();
    let run = Pipeline::start(&table, "demo", "myproj".to_string())
        .advance(Event::WorkingDirectory("/tmp".to_string()));
    assert_eq!(run.stage(), Stage::Failed);
    assert_eq!(run.error(), Some(Error::WorkingDirectoryUnavailable));
}
