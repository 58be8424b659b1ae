//! The checks that an artifact must pass before it is submitted: which tool
//! each one runs, and what it makes of the tool's answer.

use vstd::prelude::*;
use vstd::string::*;
use vstd::utf8::encode_utf8;
use crate::documents::{bundle_entitlemens, entitlements_of, BundleEntitlements};
use crate::error::{
    OperationError, OperationErrorView, PrecheckErrorView, Status, StatusView,
};
use crate::input_path::PathType;
use crate::property_list::readable_events;
use crate::text::{
    chars_of, contains, find, find_marked_line, find_marked_token, marked_line, marked_token,
    str_contains,
};
use crate::tool::{
    ToolCommand, ToolCommandView, ToolOutput, ToolOutputView, ToolResult, ToolResultView,
};

verus! {

pub const SPCTL: &'static str = "/usr/sbin/spctl";

pub const CODESIGN: &'static str = "/usr/bin/codesign";

/// What the assessment tool says of an artifact that is signed with a
/// Developer ID and not notarized yet.
pub const UNNOTARIZED: &'static str = "source=Unnotarized Developer ID";

pub const SIGNAL_MESSAGE: &'static str = "Process terminated by signal";

pub const CODE_DIRECTORY: &'static str = "CodeDirectory";

pub const FLAGS: &'static str = "flags";

pub const RUNTIME: &'static str = "runtime";

pub const TIMESTAMP: &'static str = "Timestamp=";

pub const NO_CODE_DIRECTORY_MESSAGE: &'static str =
    "codesign printed no line that begins with CodeDirectory";

pub const NO_FLAGS_MESSAGE: &'static str = "codesign printed a CodeDirectory line without flags";

pub const ENTITLEMENTS_MESSAGE: &'static str =
    "codesign printed entitlements that are no property list";

pub const BUNDLE_UNSIGNED: &'static str =
    "Bundle is not signed with a Developer ID certificate or it includes unsigned binaries.";

pub const BUNDLE_UNSIGNED_FIX: &'static str =
    "Make sure CODE_SIGN_IDENTITY was specified during the build.";

pub const DISK_IMAGE_UNSIGNED: &'static str =
    "Disk image is not signed with a Developer ID certificate.";

pub const DISK_IMAGE_UNSIGNED_FIX: &'static str =
    "Run codesign -s \"Developer ID Application: <team>\" <dmg_path> to sign.";

pub const PACKAGE_UNSIGNED: &'static str = "Package is not signed with a Developer ID certificate.";

pub const PACKAGE_UNSIGNED_FIX: &'static str =
    "Make sure to provide the --sign <installer identity> argument to pkgbuild.";

pub const NO_HARDENED_RUNTIME: &'static str = "Bundle does not have hardened runtime enabled.";

pub const NO_HARDENED_RUNTIME_FIX: &'static str =
    "codesign using --runtime flag, or pass OTHER_CODE_SIGN_FLAGS=--runtime to xcodebuild. You can also enable the \"Hardened Runtime\" capability in Xcode's target settings > \"Signing and Capabilities\"";

pub const GET_TASK_ALLOW: &'static str = "Bundle includes get-task-allow entitlement.";

pub const GET_TASK_ALLOW_FIX: &'static str =
    "Specify CODE_SIGN_INJECT_BASE_ENTITLEMENTS=NO when running xcodebuild.";

pub const NO_TIMESTAMP: &'static str = "The bundle is missing a secure timestamp.";

pub const NO_TIMESTAMP_FIX: &'static str =
    "codesign using --timestamp flag, or pass OTHER_CODE_SIGN_FLAGS=--timestamp to xcodebuild.";

pub const PACKAGE_NOTICE: &'static str =
    "Because .pkg input was specified, not all checks were performed. Run \"precheck\" on a bundle for additional checks.";

/// One requirement on an artifact. Which of them apply goes by the
/// artifact's kind.
#[derive(Debug, Clone, Copy, PartialEq, Eq, Structural)]
pub enum Precheck {
    /// The artifact is signed with a Developer ID certificate.
    DeveloperId(PathType),
    /// The bundle's signature enables the hardened runtime.
    HardenedRuntime,
    /// The bundle's entitlements do not allow debugging.
    NoGetTaskAllow,
    /// The bundle's signature carries a secure timestamp.
    SecureTimestamp,
}

/// The checks for a kind of artifact, in the order in which they run.
pub open spec fn checks_for(kind: PathType) -> Seq<Precheck> {
    match kind {
        PathType::AppBundle => seq![
            Precheck::DeveloperId(PathType::AppBundle),
            Precheck::HardenedRuntime,
            Precheck::NoGetTaskAllow,
            Precheck::SecureTimestamp,
        ],
        PathType::DiskImage => seq![Precheck::DeveloperId(PathType::DiskImage)],
        PathType::InstallerPackage => seq![Precheck::DeveloperId(PathType::InstallerPackage)],
    }
}

/// The part of the assessment tool's arguments that names the context in
/// which an artifact of this kind is used.
pub open spec fn assessment_context(kind: PathType) -> Seq<Seq<char>> {
    match kind {
        PathType::AppBundle => seq!["-t"@, "exec"@],
        PathType::DiskImage => seq!["-t"@, "open"@, "--context"@, "context:primary-signature"@],
        PathType::InstallerPackage => seq!["-t"@, "install"@],
    }
}

/// The tool invocation of a check on the artifact at `path`.
pub open spec fn command_of(check: Precheck, path: Seq<char>) -> ToolCommandView {
    match check {
        Precheck::DeveloperId(kind) => ToolCommandView {
            program: SPCTL@,
            args: seq!["-v"@, "--assess"@] + assessment_context(kind) + seq![path],
            current_dir: None,
        },
        Precheck::HardenedRuntime => ToolCommandView {
            program: CODESIGN@,
            args: seq!["--display"@, "--verbose"@, path],
            current_dir: None,
        },
        Precheck::NoGetTaskAllow => ToolCommandView {
            program: CODESIGN@,
            args: seq!["-d"@, "--entitlements"@, ":-"@, path],
            current_dir: None,
        },
        Precheck::SecureTimestamp => ToolCommandView {
            program: CODESIGN@,
            args: seq!["-dvv"@, path],
            current_dir: None,
        },
    }
}

/// What is reported where an artifact does not meet a check.
pub open spec fn failure_of(check: Precheck) -> PrecheckErrorView {
    match check {
        Precheck::DeveloperId(PathType::AppBundle) => PrecheckErrorView {
            message: BUNDLE_UNSIGNED@,
            solution: BUNDLE_UNSIGNED_FIX@,
            see_also: None,
        },
        Precheck::DeveloperId(PathType::DiskImage) => PrecheckErrorView {
            message: DISK_IMAGE_UNSIGNED@,
            solution: DISK_IMAGE_UNSIGNED_FIX@,
            see_also: None,
        },
        Precheck::DeveloperId(PathType::InstallerPackage) => PrecheckErrorView {
            message: PACKAGE_UNSIGNED@,
            solution: PACKAGE_UNSIGNED_FIX@,
            see_also: None,
        },
        Precheck::HardenedRuntime => PrecheckErrorView {
            message: NO_HARDENED_RUNTIME@,
            solution: NO_HARDENED_RUNTIME_FIX@,
            see_also: None,
        },
        Precheck::NoGetTaskAllow => PrecheckErrorView {
            message: GET_TASK_ALLOW@,
            solution: GET_TASK_ALLOW_FIX@,
            see_also: None,
        },
        Precheck::SecureTimestamp => PrecheckErrorView {
            message: NO_TIMESTAMP@,
            solution: NO_TIMESTAMP_FIX@,
            see_also: None,
        },
    }
}

/// What the assessment tool's answer says: accepted, denied, or no answer
/// at all. Exit code 0 accepts. Exit code 3 is a denial, which still counts
/// as accepted where the reason given is that the artifact is signed with a
/// Developer ID and only not notarized yet. A tool that did not start, was
/// ended by a signal or exited with another code gave no answer.
pub open spec fn assessment_of(result: ToolResultView) -> Result<bool, OperationErrorView> {
    match result {
        ToolResultView::NotStarted(reason) => Err(OperationErrorView::Text(reason)),
        ToolResultView::Finished(output) => match output.code {
            None => Err(OperationErrorView::Text(SIGNAL_MESSAGE@)),
            Some(code) => if code == 0 {
                Ok(true)
            } else if code == 3 {
                Ok(contains(output.stderr, UNNOTARIZED@))
            } else {
                Err(OperationErrorView::Text("spctl: "@ + output.stderr))
            },
        },
    }
}

/// What the signing tool printed, where it ran and exited with code 0; else
/// the error, which carries what it wrote to its error stream.
pub open spec fn inspection_of(result: ToolResultView) -> Result<
    ToolOutputView,
    OperationErrorView,
> {
    match result {
        ToolResultView::NotStarted(reason) => Err(OperationErrorView::Text(reason)),
        ToolResultView::Finished(output) => if output.success() {
            Ok(output)
        } else {
            Err(OperationErrorView::Text(output.stderr))
        },
    }
}

/// Whether the signing tool's description of a signature shows the hardened
/// runtime: in the first line that begins with `CodeDirectory`, the first
/// token that begins with `flags` holds `runtime`.
pub open spec fn runtime_flag_of(description: Seq<char>) -> Result<bool, OperationErrorView> {
    match marked_line(description, CODE_DIRECTORY@) {
        None => Err(OperationErrorView::Text(NO_CODE_DIRECTORY_MESSAGE@)),
        Some(line) => match marked_token(line, FLAGS@) {
            None => Err(OperationErrorView::Text(NO_FLAGS_MESSAGE@)),
            Some(flags) => Ok(contains(flags, RUNTIME@)),
        },
    }
}

/// Whether entitlements allow debugging: they do where the allowance is
/// present and true. Entitlements that could not be read are an error.
pub open spec fn debugging_allowed_by(entitlements: Option<BundleEntitlements>) -> Result<
    bool,
    OperationErrorView,
> {
    match entitlements {
        Some(e) => Ok(e.get_task_allow == Some(true)),
        None => Err(OperationErrorView::Text(ENTITLEMENTS_MESSAGE@)),
    }
}

/// Whether the entitlements that the signing tool printed allow debugging.
/// A bundle without entitlements has nothing printed for it.
pub open spec fn debugging_allowed_of(printed: Seq<char>) -> Result<bool, OperationErrorView> {
    if printed.len() == 0 {
        Ok(false)
    } else {
        debugging_allowed_by(
            match readable_events(encode_utf8(printed)) {
                Some(events) => entitlements_of(events),
                None => None,
            },
        )
    }
}

/// Whether the artifact meets the check, as far as the tool's answer tells.
/// The signing tool describes a signature on its error stream, and prints
/// entitlements on its output stream.
pub open spec fn met_of(check: Precheck, result: ToolResultView) -> Result<
    bool,
    OperationErrorView,
> {
    match check {
        Precheck::DeveloperId(_) => assessment_of(result),
        Precheck::HardenedRuntime => match inspection_of(result) {
            Ok(output) => runtime_flag_of(output.stderr),
            Err(e) => Err(e),
        },
        Precheck::NoGetTaskAllow => match inspection_of(result) {
            Ok(output) => match debugging_allowed_of(output.stdout) {
                Ok(allowed) => Ok(!allowed),
                Err(e) => Err(e),
            },
            Err(e) => Err(e),
        },
        Precheck::SecureTimestamp => match inspection_of(result) {
            Ok(output) => Ok(contains(output.stderr, TIMESTAMP@)),
            Err(e) => Err(e),
        },
    }
}

/// What a check finds, given the answer of the tool that it ran.
pub open spec fn outcome_of(check: Precheck, result: ToolResultView) -> Result<
    StatusView,
    OperationErrorView,
> {
    match met_of(check, result) {
        Ok(true) => Ok(StatusView::Pass),
        Ok(false) => Ok(StatusView::Fail(failure_of(check))),
        Err(e) => Err(e),
    }
}

/// The checks for a kind of artifact, in the order in which they run.
pub fn checks(path_type: PathType) -> (list: Vec<Precheck>)
    ensures
        list@ == checks_for(path_type),
{
    let mut list: Vec<Precheck> = Vec::new();
    match path_type {
        PathType::AppBundle => {
            list.push(Precheck::DeveloperId(PathType::AppBundle));
            list.push(Precheck::HardenedRuntime);
            list.push(Precheck::NoGetTaskAllow);
            list.push(Precheck::SecureTimestamp);
        },
        PathType::DiskImage => {
            list.push(Precheck::DeveloperId(PathType::DiskImage));
        },
        PathType::InstallerPackage => {
            list.push(Precheck::DeveloperId(PathType::InstallerPackage));
        },
    }
    assert(list@ =~= checks_for(path_type));
    list
}

/// What the assessment tool's answer says: accepted, denied, or no answer.
pub fn passes_spctl(result: &ToolResult) -> (accepted: Result<bool, OperationError>)
    ensures
        match assessment_of(result@) {
            Ok(b) => accepted == Ok::<bool, OperationError>(b),
            Err(e) => accepted is Err && accepted->Err_0@ == e,
        },
{
    match result {
        ToolResult::NotStarted(reason) => Err(OperationError::new(reason.as_str())),
        ToolResult::Finished(output) => match output.code {
            None => Err(OperationError::new(SIGNAL_MESSAGE)),
            Some(code) => {
                if code == 0 {
                    Ok(true)
                } else if code == 3 {
                    Ok(str_contains(output.stderr.as_str(), UNNOTARIZED))
                } else {
                    Err(
                        OperationError::Text(
                            "spctl: ".to_owned().concat(output.stderr.as_str()),
                        ),
                    )
                }
            },
        },
    }
}

/// What the signing tool printed, where it ran and exited with code 0.
pub fn inspect(result: &ToolResult) -> (output: Result<&ToolOutput, OperationError>)
    ensures
        match inspection_of(result@) {
            Ok(o) => output is Ok && output->Ok_0@ == o,
            Err(e) => output is Err && output->Err_0@ == e,
        },
{
    match result {
        ToolResult::NotStarted(reason) => Err(OperationError::new(reason.as_str())),
        ToolResult::Finished(output) => {
            if output.success() {
                Ok(output)
            } else {
                Err(OperationError::new(output.stderr.as_str()))
            }
        },
    }
}

/// Whether the signing tool's description of a signature shows the hardened
/// runtime.
pub fn has_runtime_flag(description: &str) -> (shown: Result<bool, OperationError>)
    ensures
        match runtime_flag_of(description@) {
            Ok(b) => shown == Ok::<bool, OperationError>(b),
            Err(e) => shown is Err && shown->Err_0@ == e,
        },
{
    let text = chars_of(description);
    let line_marker = chars_of(CODE_DIRECTORY);
    let token_marker = chars_of(FLAGS);
    let runtime = chars_of(RUNTIME);
    match find_marked_line(text.as_slice(), line_marker.as_slice()) {
        None => Err(OperationError::new(NO_CODE_DIRECTORY_MESSAGE)),
        Some(line) => match find_marked_token(line.as_slice(), token_marker.as_slice()) {
            None => Err(OperationError::new(NO_FLAGS_MESSAGE)),
            Some(flags) => Ok(find(flags.as_slice(), runtime.as_slice()).is_some()),
        },
    }
}

/// Whether entitlements allow debugging.
pub fn debugging_allowed(entitlements: Option<BundleEntitlements>) -> (allowed: Result<
    bool,
    OperationError,
>)
    ensures
        match debugging_allowed_by(entitlements) {
            Ok(b) => allowed == Ok::<bool, OperationError>(b),
            Err(e) => allowed is Err && allowed->Err_0@ == e,
        },
{
    match entitlements {
        Some(entitlements) => match entitlements.get_task_allow {
            Some(value) => Ok(value),
            None => Ok(false),
        },
        None => Err(OperationError::new(ENTITLEMENTS_MESSAGE)),
    }
}

/// Whether the entitlements that the signing tool printed allow debugging.
pub fn allows_debugging(printed: &str) -> (allowed: Result<bool, OperationError>)
    ensures
        match debugging_allowed_of(printed@) {
            Ok(b) => allowed == Ok::<bool, OperationError>(b),
            Err(e) => allowed is Err && allowed->Err_0@ == e,
        },
{
    if printed.unicode_len() == 0 {
        return Ok(false);
    }
    debugging_allowed(bundle_entitlemens(printed.as_bytes()))
}

impl Precheck {
    /// The name under which the check is shown.
    pub fn display(&self) -> (name: &'static str)
        ensures
            name@ == match *self {
                Precheck::DeveloperId(_) => "Developer ID signing"@,
                Precheck::HardenedRuntime => "Hardened runtime"@,
                Precheck::NoGetTaskAllow => "No get-task-allow entitlement"@,
                Precheck::SecureTimestamp => "Secure timestamp"@,
            },
    {
        match self {
            Precheck::DeveloperId(_) => "Developer ID signing",
            Precheck::HardenedRuntime => "Hardened runtime",
            Precheck::NoGetTaskAllow => "No get-task-allow entitlement",
            Precheck::SecureTimestamp => "Secure timestamp",
        }
    }

    /// The tool invocation of this check on the artifact at `input_path`.
    pub fn command(&self, input_path: &str) -> (command: ToolCommand)
        ensures
            command@ == command_of(*self, input_path@),
    {
        match self {
            Precheck::DeveloperId(kind) => {
                let mut command = ToolCommand::new(SPCTL);
                command.arg("-v");
                command.arg("--assess");
                match kind {
                    PathType::AppBundle => {
                        command.arg("-t");
                        command.arg("exec");
                    },
                    PathType::DiskImage => {
                        command.arg("-t");
                        command.arg("open");
                        command.arg("--context");
                        command.arg("context:primary-signature");
                    },
                    PathType::InstallerPackage => {
                        command.arg("-t");
                        command.arg("install");
                    },
                }
                command.arg(input_path);
                assert(command@.args =~= command_of(*self, input_path@).args);
                command
            },
            Precheck::HardenedRuntime => {
                let mut command = ToolCommand::new(CODESIGN);
                command.arg("--display");
                command.arg("--verbose");
                command.arg(input_path);
                assert(command@.args =~= command_of(*self, input_path@).args);
                command
            },
            Precheck::NoGetTaskAllow => {
                let mut command = ToolCommand::new(CODESIGN);
                command.arg("-d");
                command.arg("--entitlements");
                command.arg(":-");
                command.arg(input_path);
                assert(command@.args =~= command_of(*self, input_path@).args);
                command
            },
            Precheck::SecureTimestamp => {
                let mut command = ToolCommand::new(CODESIGN);
                command.arg("-dvv");
                command.arg(input_path);
                assert(command@.args =~= command_of(*self, input_path@).args);
                command
            },
        }
    }

    /// What is reported where an artifact does not meet this check.
    pub fn failure(&self) -> (status: Status)
        ensures
            status@ == StatusView::Fail(failure_of(*self)),
            status@.wf(),
    {
        proof {
            lemma_failure_says_what_and_how(*self);
        }
        match self {
            Precheck::DeveloperId(PathType::AppBundle) => Status::fail_with(
                BUNDLE_UNSIGNED,
                BUNDLE_UNSIGNED_FIX,
                None,
            ),
            Precheck::DeveloperId(PathType::DiskImage) => Status::fail_with(
                DISK_IMAGE_UNSIGNED,
                DISK_IMAGE_UNSIGNED_FIX,
                None,
            ),
            Precheck::DeveloperId(PathType::InstallerPackage) => Status::fail_with(
                PACKAGE_UNSIGNED,
                PACKAGE_UNSIGNED_FIX,
                None,
            ),
            Precheck::HardenedRuntime => Status::fail_with(
                NO_HARDENED_RUNTIME,
                NO_HARDENED_RUNTIME_FIX,
                None,
            ),
            Precheck::NoGetTaskAllow => Status::fail_with(GET_TASK_ALLOW, GET_TASK_ALLOW_FIX, None),
            Precheck::SecureTimestamp => Status::fail_with(NO_TIMESTAMP, NO_TIMESTAMP_FIX, None),
        }
    }

    /// Whether the artifact meets this check, as far as the tool's answer
    /// tells.
    pub fn met(&self, result: &ToolResult) -> (met: Result<bool, OperationError>)
        ensures
            match met_of(*self, result@) {
                Ok(b) => met == Ok::<bool, OperationError>(b),
                Err(e) => met is Err && met->Err_0@ == e,
            },
    {
        match self {
            Precheck::DeveloperId(_) => passes_spctl(result),
            Precheck::HardenedRuntime => match inspect(result) {
                Ok(output) => has_runtime_flag(output.stderr.as_str()),
                Err(e) => Err(e),
            },
            Precheck::NoGetTaskAllow => match inspect(result) {
                Ok(output) => match allows_debugging(output.stdout.as_str()) {
                    Ok(allowed) => Ok(!allowed),
                    Err(e) => Err(e),
                },
                Err(e) => Err(e),
            },
            Precheck::SecureTimestamp => match inspect(result) {
                Ok(output) => Ok(str_contains(output.stderr.as_str(), TIMESTAMP)),
                Err(e) => Err(e),
            },
        }
    }

    /// What this check finds, given the answer of the tool that it ran.
    pub fn evaluate(&self, result: &ToolResult) -> (outcome: Result<Status, OperationError>)
        ensures
            match outcome_of(*self, result@) {
                Ok(s) => outcome is Ok && outcome->Ok_0@ == s,
                Err(e) => outcome is Err && outcome->Err_0@ == e,
            },
            outcome matches Ok(s) ==> s@.wf(),
    {
        match self.met(result) {
            Ok(true) => Ok(Status::Pass),
            Ok(false) => Ok(self.failure()),
            Err(e) => Err(e),
        }
    }
}

/// Every failure that a check reports says what is wrong and how to mend
/// it: neither its message nor its suggested fix is empty.
pub proof fn lemma_failure_says_what_and_how(check: Precheck)
    ensures
        failure_of(check).wf(),
        forall|result: ToolResultView| #[trigger]
            outcome_of(check, result) matches Ok(status) ==> status.wf(),
{
    reveal_strlit(
        "Bundle is not signed with a Developer ID certificate or it includes unsigned binaries.",
    );
    reveal_strlit("Make sure CODE_SIGN_IDENTITY was specified during the build.");
    reveal_strlit("Disk image is not signed with a Developer ID certificate.");
    reveal_strlit("Run codesign -s \"Developer ID Application: <team>\" <dmg_path> to sign.");
    reveal_strlit("Package is not signed with a Developer ID certificate.");
    reveal_strlit("Make sure to provide the --sign <installer identity> argument to pkgbuild.");
    reveal_strlit("Bundle does not have hardened runtime enabled.");
    reveal_strlit(
        "codesign using --runtime flag, or pass OTHER_CODE_SIGN_FLAGS=--runtime to xcodebuild. You can also enable the \"Hardened Runtime\" capability in Xcode's target settings > \"Signing and Capabilities\"",
    );
    reveal_strlit("Bundle includes get-task-allow entitlement.");
    reveal_strlit("Specify CODE_SIGN_INJECT_BASE_ENTITLEMENTS=NO when running xcodebuild.");
    reveal_strlit("The bundle is missing a secure timestamp.");
    reveal_strlit(
        "codesign using --timestamp flag, or pass OTHER_CODE_SIGN_FLAGS=--timestamp to xcodebuild.",
    );
}

/// The check for a Developer ID signature passes on exit code 0, and on exit
/// code 3 where the denial names an unnotarized Developer ID; it fails on
/// exit code 3 with any other reason; every other exit is an error.
pub proof fn lemma_developer_id_outcomes(kind: PathType, output: ToolOutputView)
    ensures
        ({
            let outcome = outcome_of(Precheck::DeveloperId(kind), ToolResultView::Finished(output));
            let failure = failure_of(Precheck::DeveloperId(kind));
            &&& output.code == Some(0i32) ==> outcome == Ok::<StatusView, OperationErrorView>(
                StatusView::Pass,
            )
            &&& output.code == Some(3i32) && contains(output.stderr, UNNOTARIZED@) ==> outcome
                == Ok::<StatusView, OperationErrorView>(StatusView::Pass)
            &&& output.code == Some(3i32) && !contains(output.stderr, UNNOTARIZED@) ==> outcome
                == Ok::<StatusView, OperationErrorView>(StatusView::Fail(failure))
            &&& output.code != Some(0i32) && output.code != Some(3i32) ==> outcome is Err
        }),
{
}

} // verus!
