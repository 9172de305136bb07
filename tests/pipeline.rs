use gtoolkit_installer::{
    join_all, join_path, Action, BuildOptions, Builder, DownloadJob, ExecutionStep, ExtractJob,
    FoundFile, InstallerError, RelocateJob, Run, ScriptSpec, Stage,
};

fn found(path: &str, name: &str) -> FoundFile {
    FoundFile { path: path.to_string(), name: name.to_string() }
}

fn options(target: &str, overwrite: bool) -> BuildOptions {
    let image_dir = join_path(target, "pharo-image");
    BuildOptions {
        target: target.to_string(),
        overwrite,
        downloads: vec![
            DownloadJob::new("https://example.org/image.zip", target, "pharo-image.zip"),
            DownloadJob::new("https://example.org/vm.zip", target, "pharo-vm.zip"),
            DownloadJob::new("https://example.org/app.zip", target, "app.zip"),
        ],
        extracts: vec![
            ExtractJob::new("/t/pharo-image.zip", &image_dir),
            ExtractJob::new("/t/pharo-vm.zip", "/t/pharo-vm"),
            ExtractJob::new("/t/app.zip", target),
        ],
        relocations: vec![
            RelocateJob::new(".*image", &image_dir, "/t/GlamorousToolkit.image", false),
            RelocateJob::new(".*changes", &image_dir, "/t/GlamorousToolkit.changes", false),
            RelocateJob::new(".*sources", &image_dir, target, true),
        ],
        scripts: vec![
            ScriptSpec::new("/t/a.st", "a"),
            ScriptSpec::new("/t/b.st", "b"),
            ScriptSpec::new("/t/c.st", "c"),
            ScriptSpec::new("/t/d.st", "d"),
        ],
        steps: vec![
            ExecutionStep::new("pharo", "GlamorousToolkit.image", "a.st"),
            ExecutionStep::new("pharo", "GlamorousToolkit.image", "b.st"),
            ExecutionStep::new("gt", "GlamorousToolkit.image", "c.st"),
            ExecutionStep::new("gt", "GlamorousToolkit.image", "d.st").no_quit().interactive(),
        ],
    }
}

fn kind(a: &Action) -> &'static str {
    match a {
        Action::RemoveTarget(_) => "remove",
        Action::CreateTarget(_) => "create-dir",
        Action::Download(_) => "download",
        Action::Extract(_) => "extract",
        Action::Relocate(_) => "relocate",
        Action::Create(_) => "script",
        Action::Execute(_) => "execute",
    }
}

#[test]
fn join_keeps_outputs_in_order() {
    let rs: Vec<Result<u32, InstallerError>> = vec![Ok(3), Ok(1), Ok(2)];
    assert_eq!(join_all(rs).unwrap(), vec![3, 1, 2]);
}

#[test]
fn join_of_empty_set_is_empty() {
    let rs: Vec<Result<u32, InstallerError>> = vec![];
    assert_eq!(join_all(rs).unwrap(), Vec::<u32>::new());
}

#[test]
fn join_fails_when_one_job_fails() {
    let rs: Vec<Result<u32, String>> = vec![Ok(1), Err("b".to_string()), Ok(3)];
    assert_eq!(join_all(rs), Err("b".to_string()));
}

#[test]
fn join_reports_earliest_failure() {
    let rs: Vec<Result<u32, String>> = vec![Ok(1), Err("b".to_string()), Err("c".to_string())];
    assert_eq!(join_all(rs), Err("b".to_string()));
}

#[test]
fn relocate_none_matching_is_not_found() {
    let job = RelocateJob::new(".*image", "/r", "/t/x.image", false);
    let files = vec![found("/r/a.changes", "a.changes"), found("/r/b.txt", "b.txt")];
    assert_eq!(
        job.select(&files).err(),
        Some(InstallerError::NotFound(".*image".to_string(), "/r".to_string()))
    );
}

#[test]
fn relocate_empty_root_is_not_found() {
    let job = RelocateJob::new(".*image", "/r", "/t/x.image", false);
    assert!(matches!(job.select(&vec![]), Err(InstallerError::NotFound(_, _))));
}

#[test]
fn relocate_single_match_moves_it() {
    let job = RelocateJob::new(".*image", "/r", "/t/GlamorousToolkit.image", false);
    let files = vec![
        found("/r/Pharo.changes", "Pharo.changes"),
        found("/r/sub/Pharo.image", "Pharo.image"),
    ];
    let m = job.select(&files).unwrap();
    assert_eq!(m.from, "/r/sub/Pharo.image");
    assert_eq!(m.to, "/t/GlamorousToolkit.image");
}

#[test]
fn relocate_into_directory_keeps_name() {
    let job = RelocateJob::new(".*sources", "/r", "/t", true);
    let files = vec![found("/r/Pharo9.sources", "Pharo9.sources")];
    let m = job.select(&files).unwrap();
    assert_eq!(m.from, "/r/Pharo9.sources");
    assert_eq!(m.to, "/t/Pharo9.sources");
}

#[test]
fn relocate_two_matches_is_ambiguous() {
    let job = RelocateJob::new(".*image", "/r", "/t/x.image", false);
    let files = vec![
        found("/r/a.image", "a.image"),
        found("/r/b.txt", "b.txt"),
        found("/r/c.image", "c.image"),
    ];
    assert_eq!(
        job.select(&files).err(),
        Some(InstallerError::AmbiguousMatch(
            ".*image".to_string(),
            "/r".to_string(),
            vec!["/r/a.image".to_string(), "/r/c.image".to_string()]
        ))
    );
}

#[test]
fn relocate_invalid_pattern() {
    let job = RelocateJob::new("(image", "/r", "/t/x.image", false);
    let files = vec![found("/r/a.image", "a.image")];
    assert_eq!(
        job.select(&files).err(),
        Some(InstallerError::InvalidPattern("(image".to_string()))
    );
}

#[test]
fn download_outcome_by_status() {
    let job = DownloadJob::new("https://example.org/vm.zip", "/t", "vm.zip");
    assert_eq!(job.path(), "/t/vm.zip");
    assert_eq!(job.outcome(200), Ok("/t/vm.zip".to_string()));
    assert_eq!(
        job.outcome(404),
        Err(InstallerError::DownloadError("https://example.org/vm.zip".to_string(), 404))
    );
    assert!(job.outcome(500).is_err());
    assert!(job.outcome(204).is_ok());
}

#[test]
fn step_arguments_follow_flags() {
    let step = ExecutionStep::new("pharo", "gt.image", "load.st");
    assert!(step.quit && !step.interactive);
    assert_eq!(step.arguments(), vec!["gt.image", "st", "load.st", "-quit", ""]);
    let last = ExecutionStep::new("gt", "gt.image", "start.st").no_quit().interactive();
    assert!(!last.quit && last.interactive);
    assert_eq!(last.arguments(), vec!["gt.image", "st", "start.st", ""]);
}

#[test]
fn plan_refused_when_target_exists() {
    let r = Builder::new().plan(options("/t", false), true);
    assert!(matches!(r, Err(InstallerError::WorkspaceAlreadyExists(p)) if p == "/t"));
}

#[test]
fn plan_removes_existing_target_first() {
    let plan = Builder::new().plan(options("/t", true), true).unwrap();
    let kinds: Vec<&str> = plan.iter().map(kind).collect();
    assert_eq!(kinds[0], "remove");
    assert_eq!(kinds[1], "create-dir");
    assert_eq!(kinds[2], "download");
    assert_eq!(plan.len(), 1 + 3 + 3 + 4 + 4);
}

#[test]
fn plan_fresh_target_has_fixed_order() {
    let plan = Builder::new().plan(options("/t", false), false).unwrap();
    let kinds: Vec<&str> = plan.iter().map(kind).collect();
    assert_eq!(
        kinds,
        vec![
            "create-dir", "download", "extract", "relocate", "relocate", "relocate", "script",
            "script", "script", "script", "execute", "execute", "execute", "execute"
        ]
    );
    match &plan[13] {
        Action::Execute(s) => assert!(!s.quit && s.interactive),
        _ => panic!("last action is not an execution"),
    }
}

#[test]
fn chain_stops_after_failing_step() {
    let mut run = Run::start(3);
    let mut invoked = vec![];
    let outcomes = [true, false, true];
    while let Some(i) = run.next_action() {
        invoked.push(i);
        run.record(outcomes[i]);
    }
    assert_eq!(invoked, vec![0, 1]);
    assert!(!run.completed());
}

#[test]
fn end_to_end_all_stages_succeed() {
    let plan = Builder::new().plan(options("/t", false), false).unwrap();
    let mut run = Run::start(plan.len());
    let mut performed = 0;
    while let Some(i) = run.next_action() {
        assert_eq!(i, performed);
        performed += 1;
        run.record(true);
    }
    assert_eq!(performed, 14);
    assert!(run.completed());
}

#[test]
fn end_to_end_second_download_not_found() {
    let opts = options("/t", false);
    let urls: Vec<String> = opts.downloads.iter().map(|d| d.url.clone()).collect();
    let plan = Builder::new().plan(opts, false).unwrap();
    let mut run = Run::start(plan.len());
    let mut error = None;
    let mut performed = vec![];
    while let Some(i) = run.next_action() {
        performed.push(kind(&plan[i]));
        let ok = match &plan[i] {
            Action::Download(jobs) => {
                let statuses = [200u16, 404, 200];
                let results: Vec<Result<String, InstallerError>> =
                    jobs.iter().zip(statuses).map(|(j, s)| j.outcome(s)).collect();
                match join_all(results) {
                    Ok(_) => true,
                    Err(e) => {
                        error = Some(e);
                        false
                    }
                }
            }
            _ => true,
        };
        run.record(ok);
    }
    assert_eq!(performed, vec!["create-dir", "download"]);
    assert_eq!(error, Some(InstallerError::DownloadError(urls[1].clone(), 404)));
    assert!(!run.completed());
}

#[test]
fn join_path_inserts_separator() {
    assert_eq!(join_path("/t", "a.st"), "/t/a.st");
    assert_eq!(join_path("", "a"), "/a");
}

#[test]
fn step_exit_code_decides_outcome() {
    let step = ExecutionStep::new("pharo", "gt.image", "load.st");
    assert_eq!(step.describe(), "pharo gt.image st load.st -quit ");
    assert_eq!(step.finished(Some(0)), Ok(()));
    assert_eq!(
        step.finished(Some(1)),
        Err(InstallerError::CommandExecutionFailed("pharo gt.image st load.st -quit ".to_string()))
    );
    assert!(matches!(step.finished(None), Err(InstallerError::CommandExecutionFailed(_))));
}

#[test]
fn actions_report_their_stage() {
    let plan = Builder::new().plan(options("/t", true), true).unwrap();
    let stages: Vec<Stage> = plan.iter().map(|a| a.stage()).collect();
    assert_eq!(stages[0], Stage::Checking);
    assert_eq!(stages[1], Stage::Checking);
    assert_eq!(stages[2], Stage::Downloading);
    assert_eq!(stages[3], Stage::Extracting);
    assert_eq!(stages[4], Stage::Moving);
    assert_eq!(stages[7], Stage::Creating);
    assert_eq!(stages[11], Stage::Building);
    assert_eq!(stages[14], Stage::Building);
}

#[test]
fn run_over_no_actions_is_complete() {
    let run = Run::start(0);
    assert_eq!(run.next_action(), None);
    assert!(run.completed());
}
