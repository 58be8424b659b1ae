use xcnotary::error::OperationError;
use xcnotary::input_path::PathType;
use xcnotary::documents::{
    NotarizationInfo, NotarizationInfoDetails, NotarizationStatus, NotarizationUpload,
    NotarizationUploadDetails,
};
use xcnotary::notarize::{
    archive_name, archive_plan, confirmed_status, request_id_from, NotarizeOp,
};
use xcnotary::submission::{run, Action, Event, Notarization, Phase, POLL_INTERVAL};
use xcnotary::tool::{ToolCommand, ToolOutput, ToolResult};

static REQUEST_UUID: &str = "c0dec0de-1234-5678-1234-b4d961a1d182";

fn finished(code: Option<i32>, stdout: &str, stderr: &str) -> ToolResult {
    ToolResult::Finished(ToolOutput {
        code,
        stdout: stdout.to_string(),
        stderr: stderr.to_string(),
    })
}

fn upload_answer() -> ToolResult {
    finished(
        Some(0),
        &format!(
            "<?xml version=\"1.0\" encoding=\"UTF-8\"?>\n<plist version=\"1.0\">\n<dict>\n<key>notarization-upload</key>\n<dict>\n<key>RequestUUID</key>\n<string>{}</string>\n</dict>\n<key>success-message</key>\n<string>No errors uploading 'Example.zip'.</string>\n</dict>\n</plist>\n",
            REQUEST_UUID
        ),
        "",
    )
}

fn status_text(status: &str, log_url: Option<&str>, message: &str) -> String {
    let log = match log_url {
        Some(url) => format!("<key>LogFileURL</key>\n<string>{}</string>\n", url),
        None => String::new(),
    };
    format!(
        "<?xml version=\"1.0\" encoding=\"UTF-8\"?>\n<plist version=\"1.0\">\n<dict>\n<key>notarization-info</key>\n<dict>\n<key>Date</key>\n<date>2020-03-01T00:00:00Z</date>\n{}<key>RequestUUID</key>\n<string>{}</string>\n<key>Status</key>\n<string>{}</string>\n</dict>\n<key>success-message</key>\n<string>{}</string>\n</dict>\n</plist>\n",
        log, REQUEST_UUID, status, message
    )
}

fn status_answer(status: &str, log_url: Option<&str>) -> ToolResult {
    finished(
        Some(0),
        &status_text(status, log_url, "No errors getting notarization info."),
        "",
    )
}

fn strings(items: &[&str]) -> Vec<String> {
    items.iter().map(|s| s.to_string()).collect()
}

fn altool_prefix() -> Vec<String> {
    strings(&["altool", "-u", "dev@example.com", "-p", "@keychain:AC_PASSWORD", "--output-format", "xml"])
}

fn status_args() -> Vec<String> {
    let mut args = altool_prefix();
    args.extend(strings(&["--notarization-info", REQUEST_UUID]));
    args
}

fn staple_args(path: &str) -> Vec<String> {
    strings(&["stapler", "staple", path])
}

fn disk_image_run() -> Notarization {
    run("/tmp/out/Example.dmg", PathType::DiskImage, "Example.dmg", "dev@example.com", "AC_PASSWORD", &None)
}

fn bundle_run() -> Notarization {
    run("/work/build/Example.app", PathType::AppBundle, "com.example.app", "dev@example.com", "AC_PASSWORD", &None)
}

fn parts(action: Action) -> (String, Vec<String>, Option<String>) {
    match action {
        Action::Invoke(ToolCommand { program, args, current_dir }) => (program, args, current_dir),
        other => panic!("expected an invocation, got {:?}", other),
    }
}

fn poll_parts(action: Action) -> (u64, String, Vec<String>) {
    match action {
        Action::Poll { wait_seconds, command } => (wait_seconds, command.program, command.args),
        other => panic!("expected a status query, got {:?}", other),
    }
}

fn error_of(action: Action) -> OperationError {
    match action {
        Action::Finish(Err(error)) => error,
        other => panic!("expected a failed run, got {:?}", other),
    }
}

fn polling() -> Notarization {
    let (machine, _) = disk_image_run().advance(Event::Start);
    let (machine, _) = machine.advance(Event::ToolFinished(upload_answer()));
    assert!(matches!(machine.phase, Phase::Polling { .. }));
    machine
}

#[test]
fn run_keeps_the_submission() {
    let machine = run("Foo.pkg", PathType::InstallerPackage, "Foo.pkg", "me", "item", &Some("Team".to_string()));
    assert_eq!(machine.op.input_path, "Foo.pkg");
    assert_eq!(machine.op.path_type, PathType::InstallerPackage);
    assert_eq!(machine.op.bundle_id, "Foo.pkg");
    assert_eq!(machine.op.developer_account, "me");
    assert_eq!(machine.op.password_keychain_item, "item");
    assert_eq!(machine.op.provider, Some("Team".to_string()));
    assert!(!machine.is_finished());
}

#[test]
fn disk_image_starts_packaged_and_is_uploaded_unchanged() {
    let machine = disk_image_run();
    match &machine.phase {
        Phase::Packaged { payload } => assert_eq!(payload, "/tmp/out/Example.dmg"),
        other => panic!("expected a ready payload, got {:?}", other),
    }
    let (machine, action) = machine.advance(Event::Start);
    assert!(matches!(machine.phase, Phase::Uploading));
    let mut expected = altool_prefix();
    expected.extend(strings(&[
        "--notarize-app",
        "--file",
        "/tmp/out/Example.dmg",
        "--primary-bundle-id",
        "Example.dmg",
    ]));
    assert_eq!(parts(action), ("/usr/bin/xcrun".to_string(), expected, None));
}

#[test]
fn provider_is_passed_where_given() {
    let op = NotarizeOp::new(
        "Foo.dmg".to_string(),
        PathType::DiskImage,
        "Foo.dmg".to_string(),
        "me".to_string(),
        "item".to_string(),
        Some("TeamShortName".to_string()),
    );
    assert_eq!(
        op.status_command("id-1").args,
        strings(&[
            "altool",
            "-u",
            "me",
            "-p",
            "@keychain:item",
            "--output-format",
            "xml",
            "--asc-provider",
            "TeamShortName",
            "--notarization-info",
            "id-1"
        ])
    );
    assert_eq!(
        op.upload_command("Foo.dmg").args,
        strings(&[
            "altool",
            "-u",
            "me",
            "-p",
            "@keychain:item",
            "--output-format",
            "xml",
            "--asc-provider",
            "TeamShortName",
            "--notarize-app",
            "--file",
            "Foo.dmg",
            "--primary-bundle-id",
            "Foo.dmg"
        ])
    );
}

#[test]
fn bundle_is_archived_into_the_temporary_directory() {
    let machine = bundle_run();
    assert!(matches!(machine.phase, Phase::Unpackaged));
    let (machine, action) = machine.advance(Event::Start);
    assert!(matches!(machine.phase, Phase::Staging));
    match action {
        Action::CreateTempDir { parent } => assert_eq!(parent, Some("/work/build".to_string())),
        other => panic!("expected a temporary directory request, got {:?}", other),
    }
    let (machine, action) = machine.advance(Event::TempDirCreated {
        path: "/tmp/.tmpAbc".to_string(),
        parent_is_dir: true,
    });
    match &machine.phase {
        Phase::Packaging { payload } => assert_eq!(payload, "/tmp/.tmpAbc/Example.zip"),
        other => panic!("expected packaging, got {:?}", other),
    }
    assert_eq!(
        parts(action),
        (
            "/usr/bin/ditto".to_string(),
            strings(&["-ck", "--keepParent", "Example.app", "/tmp/.tmpAbc/Example.zip"]),
            Some("/work/build".to_string())
        )
    );
    let (machine, action) = machine.advance(Event::ToolFinished(finished(Some(0), "", "")));
    assert!(matches!(machine.phase, Phase::Uploading));
    let (program, args, _) = parts(action);
    assert_eq!(program, "/usr/bin/xcrun");
    assert_eq!(
        args[7..].to_vec(),
        strings(&[
            "--notarize-app",
            "--file",
            "/tmp/.tmpAbc/Example.zip",
            "--primary-bundle-id",
            "com.example.app"
        ])
    );
}

#[test]
fn archive_keeps_the_bundle_as_its_top_level_entry() {
    let op = NotarizeOp::new(
        "Example.app".to_string(),
        PathType::AppBundle,
        "com.example.app".to_string(),
        "me".to_string(),
        "item".to_string(),
        None,
    );
    let plan = op.zip_bundle("/tmp/stage", false).unwrap();
    assert_eq!(plan.payload, "/tmp/stage/Example.zip");
    assert_eq!(plan.command.program, "/usr/bin/ditto");
    assert_eq!(plan.command.args[1], "--keepParent");
    assert_eq!(plan.command.args[2], "Example.app");
    assert_eq!(plan.command.args[3], "/tmp/stage/Example.zip");
    assert_eq!(plan.command.current_dir, Some(".".to_string()));
}

#[test]
fn archiver_runs_in_the_current_directory_without_a_parent_directory() {
    let op = NotarizeOp::new(
        "/".to_string(),
        PathType::AppBundle,
        "x".to_string(),
        "me".to_string(),
        "item".to_string(),
        None,
    );
    match op.zip_bundle("/tmp/stage", true).unwrap_err() {
        OperationError::Detailed(heading, text) => {
            assert_eq!(heading, "The bundle's path has no file name");
            assert_eq!(text, "/");
        }
        other => panic!("unexpected {:?}", other),
    }
    let op = NotarizeOp::new(
        "a/b.c/Example.app/".to_string(),
        PathType::AppBundle,
        "x".to_string(),
        "me".to_string(),
        "item".to_string(),
        None,
    );
    let plan = op.zip_bundle("stage", true).unwrap();
    assert_eq!(plan.command.current_dir, Some("a/b.c".to_string()));
    assert_eq!(plan.command.args[2], "Example.app");
    assert_eq!(plan.payload, "stage/Example.zip");
    let plan = op.zip_bundle("stage", false).unwrap();
    assert_eq!(plan.command.current_dir, Some(".".to_string()));
}

#[test]
fn failed_packaging_is_an_infra_error() {
    let (machine, _) = bundle_run().advance(Event::Start);
    let (machine, action) = machine.advance(Event::TempDirFailed("disk full".to_string()));
    assert!(matches!(machine.phase, Phase::InfraError(_)));
    assert_eq!(error_of(action).render(), "Error: disk full");

    let (machine, _) = bundle_run().advance(Event::Start);
    let (machine, _) = machine.advance(Event::TempDirCreated {
        path: "/tmp/x".to_string(),
        parent_is_dir: true,
    });
    let (machine, action) = machine.advance(Event::ToolFinished(finished(Some(1), "", "boom")));
    assert!(matches!(machine.phase, Phase::InfraError(_)));
    assert!(machine.is_finished());
    assert_eq!(error_of(action).render(), "Error: Notarization zip creation failed");
}

#[test]
fn failed_upload_carries_both_streams() {
    let (machine, _) = disk_image_run().advance(Event::Start);
    let (machine, action) =
        machine.advance(Event::ToolFinished(finished(Some(1), "<out/>", "altool: bad password\n")));
    assert!(matches!(machine.phase, Phase::UploadFailed(_)));
    assert!(machine.is_finished());
    match error_of(action) {
        OperationError::Detailed(heading, text) => {
            assert_eq!(
                heading,
                "Notarization service returned an error. Please check the output and try again"
            );
            assert_eq!(text, "altool: bad password\n<out/>");
        }
        other => panic!("unexpected {:?}", other),
    }
}

#[test]
fn unreadable_upload_answer_fails_the_upload() {
    let (machine, _) = disk_image_run().advance(Event::Start);
    let (machine, action) = machine.advance(Event::ToolFinished(finished(Some(0), "uploaded!", "")));
    assert!(matches!(machine.phase, Phase::UploadFailed(_)));
    assert_eq!(
        error_of(action).render(),
        "Unexpected notarization upload response:\nuploaded!"
    );

    let (machine, _) = disk_image_run().advance(Event::Start);
    let (machine, _) =
        machine.advance(Event::ToolFinished(ToolResult::NotStarted("no xcrun".to_string())));
    assert!(matches!(machine.phase, Phase::UploadFailed(_)));
}

#[test]
fn upload_leads_to_the_first_status_query_after_the_wait() {
    let (machine, _) = disk_image_run().advance(Event::Start);
    let (machine, action) = machine.advance(Event::ToolFinished(upload_answer()));
    match &machine.phase {
        Phase::Polling { request_id } => assert_eq!(request_id, REQUEST_UUID),
        other => panic!("expected polling, got {:?}", other),
    }
    assert_eq!(POLL_INTERVAL, 5);
    assert_eq!(poll_parts(action), (5, "/usr/bin/xcrun".to_string(), status_args()));
}

#[test]
fn three_answers_make_three_queries_and_a_success() {
    let (machine, _) = disk_image_run().advance(Event::Start);
    let (mut machine, mut action) = machine.advance(Event::ToolFinished(upload_answer()));
    let answers = vec![
        status_answer("in progress", None),
        status_answer("in progress", None),
        status_answer("success", None),
    ];
    let mut queries = 0;
    let mut waited = Vec::new();
    let mut staples = Vec::new();
    let mut fetches = 0;
    let result = loop {
        let event = match action {
            Action::Poll { wait_seconds, command } => {
                assert_eq!(command.args, status_args());
                waited.push(wait_seconds);
                queries += 1;
                Event::ToolFinished(answers[queries - 1].clone())
            }
            Action::Invoke(command) => {
                staples.push(command.args);
                Event::ToolFinished(finished(Some(0), "", ""))
            }
            Action::FetchLog { .. } => {
                fetches += 1;
                Event::LogFailed("unreachable".to_string())
            }
            Action::CreateTempDir { .. } => panic!("a disk image needs no temporary directory"),
            Action::Finish(result) => break result,
        };
        let next = machine.advance(event);
        machine = next.0;
        action = next.1;
    };
    assert_eq!(queries, 3);
    assert_eq!(waited, vec![5, 5, 5]);
    assert_eq!(fetches, 0);
    assert_eq!(staples, vec![staple_args("/tmp/out/Example.dmg")]);
    assert_eq!(result.unwrap(), None);
    assert!(matches!(machine.phase, Phase::Success { log: None }));
}

#[test]
fn success_staples_the_artifact_itself_once() {
    let (machine, _) = bundle_run().advance(Event::Start);
    let (machine, _) = machine.advance(Event::TempDirCreated {
        path: "/tmp/.tmpAbc".to_string(),
        parent_is_dir: true,
    });
    let (machine, _) = machine.advance(Event::ToolFinished(finished(Some(0), "", "")));
    let (machine, _) = machine.advance(Event::ToolFinished(upload_answer()));
    let (machine, action) = machine.advance(Event::ToolFinished(status_answer(
        "success",
        Some("https://example.com/log.json"),
    )));
    assert!(matches!(machine.phase, Phase::FetchingLog { accepted: true }));
    match action {
        Action::FetchLog { url } => assert_eq!(url, "https://example.com/log.json"),
        other => panic!("expected a log request, got {:?}", other),
    }
    let (machine, action) = machine.advance(Event::LogFetched("{\"issues\": null}".to_string()));
    assert!(matches!(machine.phase, Phase::Stapling { .. }));
    assert_eq!(
        parts(action),
        ("/usr/bin/xcrun".to_string(), staple_args("/work/build/Example.app"), None)
    );
    let (machine, action) = machine.advance(Event::ToolFinished(finished(Some(0), "", "")));
    assert!(matches!(machine.phase, Phase::Success { .. }));
    assert!(machine.is_finished());
    match action {
        Action::Finish(Ok(log)) => assert_eq!(log, Some("{\"issues\": null}".to_string())),
        other => panic!("expected success, got {:?}", other),
    }
    let (machine, action) = machine.advance(Event::ToolFinished(finished(Some(0), "", "")));
    assert!(matches!(machine.phase, Phase::Success { .. }));
    assert!(matches!(action, Action::Finish(Ok(Some(_)))));
}

#[test]
fn failed_staple_is_an_infra_error_with_the_error_stream() {
    let (machine, _) = polling().advance(Event::ToolFinished(status_answer("success", None)));
    let (machine, action) =
        machine.advance(Event::ToolFinished(finished(Some(65), "out", "no ticket")));
    assert!(matches!(machine.phase, Phase::InfraError(_)));
    assert_eq!(error_of(action).render(), "Staple failed:\nno ticket");
}

#[test]
fn rejection_reports_the_log() {
    let (machine, action) = polling().advance(Event::ToolFinished(status_answer(
        "invalid",
        Some("https://example.com/log.json"),
    )));
    assert!(matches!(machine.phase, Phase::FetchingLog { accepted: false }));
    assert!(matches!(action, Action::FetchLog { .. }));
    let (machine, action) = machine.advance(Event::LogFetched("binary is not signed".to_string()));
    assert!(matches!(machine.phase, Phase::Invalid(_)));
    assert!(machine.is_finished());
    match error_of(action) {
        OperationError::Detailed(heading, text) => {
            assert_eq!(heading, "Notarization failed. Service response:");
            assert_eq!(text, "binary is not signed");
        }
        other => panic!("unexpected {:?}", other),
    }
}

#[test]
fn rejection_without_a_log_says_so() {
    let (machine, action) = polling().advance(Event::ToolFinished(status_answer("invalid", None)));
    assert!(matches!(machine.phase, Phase::Invalid(_)));
    assert_eq!(
        error_of(action).render(),
        "Error: Notarization failed, and the service named no log file"
    );
}

#[test]
fn log_that_cannot_be_fetched_does_not_cost_the_success() {
    let (machine, action) = polling().advance(Event::ToolFinished(status_answer(
        "success",
        Some("https://example.com/log.json"),
    )));
    assert!(matches!(machine.phase, Phase::FetchingLog { accepted: true }));
    assert!(matches!(action, Action::FetchLog { .. }));
    let (machine, action) = machine.advance(Event::LogFailed("timed out".to_string()));
    assert!(matches!(machine.phase, Phase::Stapling { log: None }));
    assert_eq!(
        parts(action),
        ("/usr/bin/xcrun".to_string(), staple_args("/tmp/out/Example.dmg"), None)
    );
    let (machine, action) = machine.advance(Event::ToolFinished(finished(Some(0), "", "")));
    assert!(matches!(machine.phase, Phase::Success { log: None }));
    assert!(matches!(action, Action::Finish(Ok(None))));
}

#[test]
fn log_of_a_rejection_that_cannot_be_fetched_is_an_infra_error() {
    let (machine, _) = polling().advance(Event::ToolFinished(status_answer(
        "invalid",
        Some("https://example.com/log.json"),
    )));
    let (machine, action) = machine.advance(Event::LogFailed("timed out".to_string()));
    assert!(matches!(machine.phase, Phase::InfraError(_)));
    assert_eq!(error_of(action).render(), "Error: timed out");
}

#[test]
fn unexpected_status_message_aborts_polling() {
    let answer = finished(Some(0), &status_text("in progress", None, "Something else."), "");
    let (machine, action) = polling().advance(Event::ToolFinished(answer));
    assert!(matches!(machine.phase, Phase::InfraError(_)));
    assert_eq!(
        error_of(action).render(),
        "Unexpected notarization message:\nSomething else."
    );
}

#[test]
fn unreadable_or_failed_status_answer_aborts_polling() {
    let (machine, action) = polling().advance(Event::ToolFinished(finished(Some(0), "nothing", "")));
    assert!(matches!(machine.phase, Phase::InfraError(_)));
    assert_eq!(
        error_of(action).render(),
        "Unexpected notarization status response:\nnothing"
    );

    let answer = finished(
        Some(0),
        &status_text("approved", None, "No errors getting notarization info."),
        "",
    );
    let (machine, _) = polling().advance(Event::ToolFinished(answer));
    assert!(matches!(machine.phase, Phase::InfraError(_)));

    let (machine, action) =
        polling().advance(Event::ToolFinished(finished(Some(1), "out", "err: ")));
    assert!(matches!(machine.phase, Phase::InfraError(_)));
    assert_eq!(
        error_of(action).render(),
        "Notarization service returned an error. Please check the output and try again:\nerr: out"
    );
}

#[test]
fn event_out_of_turn_ends_the_run() {
    let (machine, action) = disk_image_run().advance(Event::LogFetched("x".to_string()));
    assert!(matches!(machine.phase, Phase::InfraError(_)));
    assert_eq!(
        error_of(action).render(),
        "Error: An event arrived that answers no pending action"
    );
    let (machine, _) = polling().advance(Event::Start);
    assert!(matches!(machine.phase, Phase::InfraError(_)));
    let (machine, _) = bundle_run().advance(Event::ToolFinished(finished(Some(0), "", "")));
    assert!(matches!(machine.phase, Phase::InfraError(_)));
}

#[test]
fn ended_run_answers_with_its_result() {
    let (machine, _) = polling().advance(Event::ToolFinished(status_answer("invalid", None)));
    let (machine, action) = machine.advance(Event::ToolFinished(status_answer("success", None)));
    assert!(matches!(machine.phase, Phase::Invalid(_)));
    assert_eq!(
        error_of(action).render(),
        "Error: Notarization failed, and the service named no log file"
    );
    let (machine, action) = machine.advance(Event::Start);
    assert!(matches!(machine.phase, Phase::Invalid(_)));
    assert!(matches!(action, Action::Finish(Err(_))));
}

#[test]
fn get_status_reads_the_verdict() {
    let info = NotarizeOp::get_status(&status_answer("success", Some("https://e.com/l"))).unwrap();
    assert_eq!(info.details.request_uuid, REQUEST_UUID);
    assert_eq!(info.details.logfile_url, Some("https://e.com/l".to_string()));
    assert!(info.details.status.is_terminal());
    let info = NotarizeOp::get_status(&status_answer("in progress", None)).unwrap();
    assert!(!info.details.status.is_terminal());
    assert_eq!(info.success_message, "No errors getting notarization info.");
}

#[test]
fn answers_of_the_tools_are_read_one_by_one() {
    assert_eq!(NotarizeOp::submit_to_service(&upload_answer()).unwrap(), REQUEST_UUID);
    assert_eq!(NotarizeOp::run_altool(&finished(Some(0), "text", "warn")).unwrap(), "text");
    assert!(NotarizeOp::run_altool(&finished(None, "text", "warn")).is_err());
    assert!(NotarizeOp::zipped(&finished(Some(0), "", "")).is_ok());
    assert_eq!(
        NotarizeOp::zipped(&ToolResult::NotStarted("no ditto".to_string()))
            .unwrap_err()
            .render(),
        "Error: no ditto"
    );
    assert!(NotarizeOp::staple(&finished(Some(0), "", "")).is_ok());
    assert_eq!(
        NotarizeOp::staple(&ToolResult::NotStarted("no xcrun".to_string()))
            .unwrap_err()
            .render(),
        "Error: no xcrun"
    );
}

fn info(status: NotarizationStatus, log: Option<&str>, message: &str) -> NotarizationInfo {
    NotarizationInfo {
        details: NotarizationInfoDetails {
            logfile_url: log.map(|l| l.to_string()),
            request_uuid: REQUEST_UUID.to_string(),
            status,
        },
        success_message: message.to_string(),
    }
}

#[test]
fn archive_is_named_after_the_bundle() {
    assert_eq!(archive_name("Example.app"), "Example.zip");
    assert_eq!(archive_name("My Tool 1.2.app"), "My Tool 1.2.zip");
    assert_eq!(archive_name("Example"), "Example.zip");
    assert_eq!(archive_name(".app"), ".app.zip");
}

#[test]
fn archive_plan_runs_ditto_beside_the_bundle() {
    let plan = archive_plan("Example.app", "/t/Example.zip".to_string(), Some("/w".to_string()), true);
    assert_eq!(plan.payload, "/t/Example.zip");
    assert_eq!(plan.command.program, "/usr/bin/ditto");
    assert_eq!(plan.command.args, strings(&["-ck", "--keepParent", "Example.app", "/t/Example.zip"]));
    assert_eq!(plan.command.current_dir, Some("/w".to_string()));
    let plan = archive_plan("Example.app", "/t/Example.zip".to_string(), Some("".to_string()), false);
    assert_eq!(plan.command.current_dir, Some(".".to_string()));
    let plan = archive_plan("Example.app", "/t/Example.zip".to_string(), None, true);
    assert_eq!(plan.command.current_dir, Some(".".to_string()));
}

#[test]
fn request_id_comes_from_a_readable_upload_answer() {
    let upload = NotarizationUpload {
        details: NotarizationUploadDetails { request_uuid: "id-9".to_string() },
        success_message: "whatever".to_string(),
    };
    assert_eq!(request_id_from(Some(upload), "printed").unwrap(), "id-9");
    assert_eq!(
        request_id_from(None, "printed").unwrap_err().render(),
        "Unexpected notarization upload response:\nprinted"
    );
}

#[test]
fn status_answer_must_carry_the_confirmation() {
    let ok = info(NotarizationStatus::InProgress, None, "No errors getting notarization info.");
    let confirmed = confirmed_status(Some(ok), "printed").unwrap();
    assert_eq!(confirmed.details.status, NotarizationStatus::InProgress);
    assert_eq!(confirmed.details.request_uuid, REQUEST_UUID);

    let other = info(NotarizationStatus::Success, None, "No errors getting notarization info");
    assert_eq!(
        confirmed_status(Some(other), "printed").unwrap_err().render(),
        "Unexpected notarization message:\nNo errors getting notarization info"
    );
    assert_eq!(
        confirmed_status(None, "printed").unwrap_err().render(),
        "Unexpected notarization status response:\nprinted"
    );
}

#[test]
fn after_status_decides_on_the_verdict() {
    let op = disk_image_run().op;
    let confirmation = "No errors getting notarization info.";

    let (phase, action) = op.after_status(
        "id-1".to_string(),
        Ok(info(NotarizationStatus::InProgress, Some("https://e.com/l"), confirmation)),
    );
    assert!(matches!(phase, Phase::Polling { .. }));
    let (wait, _, args) = poll_parts(action);
    assert_eq!(wait, 5);
    assert_eq!(args[args.len() - 2..].to_vec(), strings(&["--notarization-info", "id-1"]));

    let (phase, action) = op.after_status(
        "id-1".to_string(),
        Ok(info(NotarizationStatus::Success, None, confirmation)),
    );
    assert!(matches!(phase, Phase::Stapling { log: None }));
    assert_eq!(parts(action).1, staple_args("/tmp/out/Example.dmg"));

    let (phase, action) = op.after_status(
        "id-1".to_string(),
        Ok(info(NotarizationStatus::Invalid, Some("https://e.com/l"), confirmation)),
    );
    assert!(matches!(phase, Phase::FetchingLog { accepted: false }));
    assert!(matches!(action, Action::FetchLog { .. }));

    let (phase, action) =
        op.after_status("id-1".to_string(), Err(xcnotary::error::OperationError::new("down")));
    assert!(matches!(phase, Phase::InfraError(_)));
    assert_eq!(error_of(action).render(), "Error: down");
}
