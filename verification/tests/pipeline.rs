use xcnotary::input_path::PathType;
use xcnotary::pipeline::{run, Pipeline, RunError};
use xcnotary::precheck::Precheck;
use xcnotary::tool::{ToolCommand, ToolOutput, ToolResult};

static SIGNED_DESCRIPTION: &str = "Executable=/tmp/Example.app/Contents/MacOS/Example
CodeDirectory v=20500 size=758 flags=0x10000(runtime) hashes=14+7 location=embedded
Timestamp=Mar 1, 2020 at 12:00:00 AM
";

static NO_RUNTIME_DESCRIPTION: &str = "Executable=/tmp/Example.app/Contents/MacOS/Example
CodeDirectory v=20200 size=758 flags=0x0(none) hashes=14+7 location=embedded
Timestamp=Mar 1, 2020 at 12:00:00 AM
";

struct FakeInvoker {
    answers: Vec<ToolResult>,
    calls: Vec<ToolCommand>,
}

fn finished(code: Option<i32>, stdout: &str, stderr: &str) -> ToolResult {
    ToolResult::Finished(ToolOutput {
        code,
        stdout: stdout.to_string(),
        stderr: stderr.to_string(),
    })
}

fn drive(pipeline: &mut Pipeline, answers: Vec<ToolResult>) -> FakeInvoker {
    let mut fake = FakeInvoker { answers, calls: Vec::new() };
    while let Some(command) = pipeline.next_command() {
        let answer = fake.answers[fake.calls.len()].clone();
        fake.calls.push(command);
        pipeline.record(&answer);
    }
    fake
}

fn signed_bundle_answers() -> Vec<ToolResult> {
    vec![
        finished(Some(3), "", "Example.app: rejected\nsource=Unnotarized Developer ID\n"),
        finished(Some(0), "", SIGNED_DESCRIPTION),
        finished(Some(0), "", "Executable=/tmp/Example.app/Contents/MacOS/Example\n"),
        finished(Some(0), "", SIGNED_DESCRIPTION),
    ]
}

fn programs(fake: &FakeInvoker) -> Vec<(String, String)> {
    fake.calls.iter().map(|c| (c.program.clone(), c.args[0].clone())).collect()
}

#[test]
fn correctly_signed_bundle_passes_all_four_checks_in_order() {
    let mut pipeline = run("/tmp/Example.app", PathType::AppBundle);
    assert_eq!(pipeline.pending(), Some(Precheck::DeveloperId(PathType::AppBundle)));
    assert!(pipeline.outcome().is_none());

    let fake = drive(&mut pipeline, signed_bundle_answers());

    assert_eq!(
        programs(&fake),
        vec![
            ("/usr/sbin/spctl".to_string(), "-v".to_string()),
            ("/usr/bin/codesign".to_string(), "--display".to_string()),
            ("/usr/bin/codesign".to_string(), "-d".to_string()),
            ("/usr/bin/codesign".to_string(), "-dvv".to_string()),
        ]
    );
    for call in &fake.calls {
        assert_eq!(call.args.last().unwrap(), "/tmp/Example.app");
    }
    assert!(matches!(pipeline.outcome(), Some(Ok(()))));
    assert_eq!(pipeline.pending(), None);
    assert!(pipeline.notice().is_none());
}

#[test]
fn pipeline_halts_at_the_first_failure() {
    let mut pipeline = run("/tmp/Example.app", PathType::AppBundle);
    let mut answers = signed_bundle_answers();
    answers[1] = finished(Some(0), "", NO_RUNTIME_DESCRIPTION);

    let fake = drive(&mut pipeline, answers);

    assert_eq!(fake.calls.len(), 2);
    assert_eq!(
        programs(&fake),
        vec![
            ("/usr/sbin/spctl".to_string(), "-v".to_string()),
            ("/usr/bin/codesign".to_string(), "--display".to_string()),
        ]
    );
    match pipeline.outcome() {
        Some(Err(RunError::Failed(failure))) => {
            assert_eq!(failure.message, "Bundle does not have hardened runtime enabled.")
        }
        other => panic!("expected a failure, got {:?}", other),
    }
    assert!(pipeline.next_command().is_none());
    assert_eq!(pipeline.pending(), None);
}

#[test]
fn pipeline_halts_at_the_first_operation_error() {
    let mut pipeline = run("/tmp/Example.app", PathType::AppBundle);
    let mut answers = signed_bundle_answers();
    answers[2] = finished(Some(1), "", "Example.app: bundle format unrecognized\n");

    let fake = drive(&mut pipeline, answers);

    assert_eq!(fake.calls.len(), 3);
    match pipeline.outcome() {
        Some(Err(error @ RunError::Error(_))) => {
            assert_eq!(error.render(), "Error: Example.app: bundle format unrecognized\n")
        }
        other => panic!("expected an operation error, got {:?}", other),
    }
}

#[test]
fn ended_pipeline_ignores_further_answers() {
    let mut pipeline = run("Foo.dmg", PathType::DiskImage);
    pipeline.record(&finished(Some(3), "", "Foo.dmg: rejected\n"));
    let before = format!("{:?}", pipeline.outcome());
    pipeline.record(&finished(Some(0), "", ""));
    pipeline.record(&ToolResult::NotStarted("late".to_string()));
    assert_eq!(format!("{:?}", pipeline.outcome()), before);
    assert!(matches!(pipeline.outcome(), Some(Err(RunError::Failed(_)))));

    let mut pipeline = run("Foo.dmg", PathType::DiskImage);
    pipeline.record(&finished(Some(0), "", ""));
    pipeline.record(&finished(Some(3), "", ""));
    assert!(matches!(pipeline.outcome(), Some(Ok(()))));
}

#[test]
fn disk_image_and_package_run_one_check() {
    for (path, kind, context) in [
        ("Foo.dmg", PathType::DiskImage, "open"),
        ("Foo.pkg", PathType::InstallerPackage, "install"),
    ] {
        let mut pipeline = run(path, kind);
        let fake = drive(&mut pipeline, vec![finished(Some(0), "", "")]);
        assert_eq!(fake.calls.len(), 1);
        assert_eq!(fake.calls[0].program, "/usr/sbin/spctl");
        assert_eq!(fake.calls[0].args[3], context);
        assert!(matches!(pipeline.outcome(), Some(Ok(()))));
    }
}

#[test]
fn test_precheck_package_pass() {
    let mut pipeline =
        run("tests/generated_artifacts/pkg/signed_with_correctly_signed_app.pkg", PathType::InstallerPackage);
    assert!(pipeline.notice().is_none());
    drive(
        &mut pipeline,
        vec![finished(
            Some(3),
            "",
            "signed_with_correctly_signed_app.pkg: rejected\nsource=Unnotarized Developer ID\n",
        )],
    );
    assert!(matches!(pipeline.outcome(), Some(Ok(()))));
    let notice = pipeline.notice().unwrap();
    assert!(notice.contains("not all checks were performed"));
    assert_eq!(
        notice,
        "Because .pkg input was specified, not all checks were performed. Run \"precheck\" on a bundle for additional checks."
    );
}

#[test]
fn test_precheck_package_fail() {
    let mut pipeline =
        run("tests/generated_artifacts/pkg/unsigned.pkg", PathType::InstallerPackage);
    drive(
        &mut pipeline,
        vec![finished(Some(3), "", "unsigned.pkg: rejected\nsource=no usable signature\n")],
    );
    let error = pipeline.outcome().unwrap().unwrap_err();
    match &error {
        RunError::Failed(failure) => {
            assert_eq!(failure.message, "Package is not signed with a Developer ID certificate.")
        }
        RunError::Error(_) => panic!("expected a failure"),
    }
    assert!(error.render().contains("Package is not signed"));
    assert!(error
        .render()
        .contains("Package is not signed with a Developer ID certificate."));
    assert!(pipeline.notice().is_none());
}

#[test]
fn notice_goes_with_every_passed_package_and_nothing_else() {
    let mut package = run("Foo.pkg", PathType::InstallerPackage);
    assert!(package.notice().is_none());
    package.record(&finished(Some(0), "", ""));
    assert!(package.notice().unwrap().contains("not all checks were performed"));

    let mut unnotarized = run("Foo.pkg", PathType::InstallerPackage);
    unnotarized.record(&finished(Some(3), "", "source=Unnotarized Developer ID"));
    assert!(unnotarized.notice().is_some());

    let mut failed = run("Foo.pkg", PathType::InstallerPackage);
    failed.record(&finished(Some(3), "", "source=no usable signature"));
    assert!(failed.notice().is_none());

    let mut broken = run("Foo.pkg", PathType::InstallerPackage);
    broken.record(&finished(Some(1), "", ""));
    assert!(broken.notice().is_none());

    let mut image = run("Foo.dmg", PathType::DiskImage);
    image.record(&finished(Some(0), "", ""));
    assert!(matches!(image.outcome(), Some(Ok(()))));
    assert!(image.notice().is_none());

    let mut bundle = run("/tmp/Example.app", PathType::AppBundle);
    drive(&mut bundle, signed_bundle_answers());
    assert!(matches!(bundle.outcome(), Some(Ok(()))));
    assert!(bundle.notice().is_none());
}

#[test]
fn run_error_parts_make_up_its_text() {
    let mut pipeline = run("Foo.pkg", PathType::InstallerPackage);
    pipeline.record(&finished(Some(3), "", ""));
    let error = pipeline.outcome().unwrap().unwrap_err();
    let joined: String = error.parts().iter().map(|p| p.text.clone()).collect();
    assert_eq!(joined, error.render());
    assert_eq!(error.parts().len(), 6);

    let mut pipeline = run("Foo.pkg", PathType::InstallerPackage);
    pipeline.record(&finished(Some(1), "", "bad"));
    let error = pipeline.outcome().unwrap().unwrap_err();
    let joined: String = error.parts().iter().map(|p| p.text.clone()).collect();
    assert_eq!(joined, "Error: spctl: bad");
    assert_eq!(joined, error.render());
}
