//! Reading an application bundle that is known to be one: the file system's
//! metadata must call it an application bundle before its `Info.plist` is
//! read.

use vstd::prelude::*;
use vstd::string::*;
use crate::documents::{BundleInfo, BundleInfoView};
use crate::error::{OperationError, OperationErrorView};
use crate::input_path::{bundle_info_read, read_bundle_info, BundleProbe, BundleProbeView};
use crate::text::{contains, str_contains};
use crate::tool::{ToolCommand, ToolCommandView, ToolResult, ToolResultView};

verus! {

pub const MDLS: &'static str = "/usr/bin/mdls";

/// The content type that the metadata of an application bundle lists.
pub const APPLICATION_BUNDLE: &'static str = "\"com.apple.application-bundle\"";

/// The invocation that lists the content types of what lies at `path`.
pub open spec fn content_type_command_of(path: Seq<char>) -> ToolCommandView {
    ToolCommandView {
        program: MDLS@,
        args: seq!["-name"@, "kMDItemContentTypeTree"@, path],
        current_dir: None,
    }
}

/// Whether the metadata tool lists the application bundle among the content
/// types. The tool writes its error message to its output stream.
pub open spec fn app_bundle_of(listing: ToolResultView) -> Result<bool, OperationErrorView> {
    match listing {
        ToolResultView::NotStarted(reason) => Err(OperationErrorView::Text(reason)),
        ToolResultView::Finished(output) => if output.success() {
            Ok(contains(output.stdout, APPLICATION_BUNDLE@))
        } else {
            Err(OperationErrorView::Text(output.stdout))
        },
    }
}

/// What a bundle says of itself, where something lies at its path and the
/// metadata calls it an application bundle.
pub open spec fn bundle_read(
    bundle_path: Seq<char>,
    probe: BundleProbeView,
    listing: ToolResultView,
) -> Result<BundleInfoView, OperationErrorView> {
    if probe is Missing {
        bundle_info_read(bundle_path, probe)
    } else {
        match app_bundle_of(listing) {
            Err(error) => Err(error),
            Ok(false) => Err(
                OperationErrorView::Text("Expected an application bundle at "@ + bundle_path),
            ),
            Ok(true) => bundle_info_read(bundle_path, probe),
        }
    }
}

/// The invocation that lists the content types of what lies at `path`.
pub fn content_type_command(path: &str) -> (command: ToolCommand)
    ensures
        command@ == content_type_command_of(path@),
{
    let mut command = ToolCommand::new(MDLS);
    command.arg("-name");
    command.arg("kMDItemContentTypeTree");
    command.arg(path);
    assert(command@.args =~= content_type_command_of(path@).args);
    command
}

/// Whether the metadata tool lists the application bundle among the content
/// types.
pub fn is_app_bundle(listing: &ToolResult) -> (bundle: Result<bool, OperationError>)
    ensures
        match app_bundle_of(listing@) {
            Ok(b) => bundle == Ok::<bool, OperationError>(b),
            Err(e) => bundle is Err && bundle->Err_0@ == e,
        },
{
    match listing {
        ToolResult::NotStarted(reason) => Err(OperationError::new(reason.as_str())),
        ToolResult::Finished(output) => if output.success() {
            Ok(str_contains(output.stdout.as_str(), APPLICATION_BUNDLE))
        } else {
            Err(OperationError::new(output.stdout.as_str()))
        },
    }
}

/// What a bundle says of itself, given what was found on disk and what the
/// metadata tool listed for its path.
pub fn read_bundle(bundle_path: &str, probe: &BundleProbe, listing: &ToolResult) -> (info: Result<
    BundleInfo,
    OperationError,
>)
    ensures
        match bundle_read(bundle_path@, probe@, listing@) {
            Ok(v) => info is Ok && info->Ok_0@ == v,
            Err(e) => info is Err && info->Err_0@ == e,
        },
{
    match probe {
        BundleProbe::Missing => read_bundle_info(bundle_path, probe),
        _ => match is_app_bundle(listing) {
            Err(error) => Err(error),
            Ok(false) => Err(
                OperationError::Text(
                    "Expected an application bundle at ".to_owned().concat(bundle_path),
                ),
            ),
            Ok(true) => read_bundle_info(bundle_path, probe),
        },
    }
}

} // verus!
