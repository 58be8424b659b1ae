//! Submitting an artifact to the notarization service: the tool invocations
//! that package, upload, query and staple, and what each answer means.

use vstd::prelude::*;
use vstd::string::*;
use vstd::utf8::encode_utf8;
use crate::documents::{
    info_of, notarization_status_response, notarization_upload_response, upload_of,
    NotarizationInfo, NotarizationInfoView, NotarizationUpload, NotarizationUploadView,
};
use crate::error::{OperationError, OperationErrorView};
use crate::input_path::{
    file_name_of, join_path, parent_of, path_file_name, path_joined, path_parent, stem_of,
    stem_of_name, PathType,
};
use crate::property_list::readable_events;
use crate::text::str_eq;
use crate::tool::{ToolCommand, ToolCommandView, ToolResult, ToolResultView};

verus! {

pub const DITTO: &'static str = "/usr/bin/ditto";

pub const XCRUN: &'static str = "/usr/bin/xcrun";

/// What every answer of the service to a status query must carry.
pub const STATUS_CONFIRMATION: &'static str = "No errors getting notarization info.";

pub const ZIP_FAILED: &'static str = "Notarization zip creation failed";

pub const NO_FILE_NAME: &'static str = "The bundle's path has no file name";

pub const SERVICE_ERROR: &'static str =
    "Notarization service returned an error. Please check the output and try again";

pub const UNREADABLE_UPLOAD: &'static str = "Unexpected notarization upload response";

pub const UNREADABLE_STATUS: &'static str = "Unexpected notarization status response";

pub const UNEXPECTED_MESSAGE: &'static str = "Unexpected notarization message";

pub const STAPLE_FAILED: &'static str = "Staple failed";

/// One submission: the artifact, the identifier it is submitted under, and
/// the account. The password is named by the keychain item that holds it and
/// never read.
#[derive(Debug)]
pub struct NotarizeOp {
    pub input_path: String,
    pub path_type: PathType,
    pub bundle_id: String,
    pub developer_account: String,
    pub password_keychain_item: String,
    pub provider: Option<String>,
}

/// `NotarizeOp` as a mathematical value: its strings are sequences of characters.
pub struct NotarizeOpView {
    pub input_path: Seq<char>,
    pub path_type: PathType,
    pub bundle_id: Seq<char>,
    pub developer_account: Seq<char>,
    pub password_keychain_item: Seq<char>,
    pub provider: Option<Seq<char>>,
}

impl View for NotarizeOp {
    type V = NotarizeOpView;

    open spec fn view(&self) -> NotarizeOpView {
        NotarizeOpView {
            input_path: self.input_path@,
            path_type: self.path_type,
            bundle_id: self.bundle_id@,
            developer_account: self.developer_account@,
            password_keychain_item: self.password_keychain_item@,
            provider: self.provider.deep_view(),
        }
    }
}

impl Clone for NotarizeOp {
    fn clone(&self) -> (copy: Self)
        ensures
            copy@ == self@,
    {
        NotarizeOp {
            input_path: self.input_path.clone(),
            path_type: self.path_type,
            bundle_id: self.bundle_id.clone(),
            developer_account: self.developer_account.clone(),
            password_keychain_item: self.password_keychain_item.clone(),
            provider: match &self.provider {
                Some(provider) => Some(provider.clone()),
                None => None,
            },
        }
    }
}

/// How a bundle is archived: the invocation of the archiver, and where the
/// archive comes to lie.
pub struct ZipPlanView {
    pub command: ToolCommandView,
    pub payload: Seq<char>,
}

/// How a bundle is archived, in executable form.
#[derive(Debug)]
pub struct ZipPlan {
    pub command: ToolCommand,
    pub payload: String,
}

impl View for ZipPlan {
    type V = ZipPlanView;

    open spec fn view(&self) -> ZipPlanView {
        ZipPlanView { command: self.command@, payload: self.payload@ }
    }
}

impl NotarizeOpView {
    /// The arguments that every call of the submission tool starts with:
    /// the account, the keychain item that holds its password, the output
    /// format, and the provider where one is given.
    pub open spec fn altool_prefix(self) -> Seq<Seq<char>> {
        seq![
            "altool"@,
            "-u"@,
            self.developer_account,
            "-p"@,
            "@keychain:"@ + self.password_keychain_item,
            "--output-format"@,
            "xml"@,
        ] + match self.provider {
            Some(provider) => seq!["--asc-provider"@, provider],
            None => Seq::<Seq<char>>::empty(),
        }
    }

    /// The invocation that uploads the payload.
    pub open spec fn upload_command(self, payload: Seq<char>) -> ToolCommandView {
        ToolCommandView {
            program: XCRUN@,
            args: self.altool_prefix() + seq![
                "--notarize-app"@,
                "--file"@,
                payload,
                "--primary-bundle-id"@,
                self.bundle_id,
            ],
            current_dir: None,
        }
    }

    /// The invocation that asks for the status of a request.
    pub open spec fn status_command(self, request_id: Seq<char>) -> ToolCommandView {
        ToolCommandView {
            program: XCRUN@,
            args: self.altool_prefix() + seq!["--notarization-info"@, request_id],
            current_dir: None,
        }
    }

    /// The invocation that staples the ticket: to the artifact itself,
    /// never to the payload that was uploaded.
    pub open spec fn staple_command(self) -> ToolCommandView {
        ToolCommandView {
            program: XCRUN@,
            args: seq!["stapler"@, "staple"@, self.input_path],
            current_dir: None,
        }
    }

    /// How the bundle is archived into `temp_dir`: the archive is named
    /// after the bundle and lies in that directory.
    pub open spec fn zip_plan(self, temp_dir: Seq<char>, parent_is_dir: bool) -> Result<
        ZipPlanView,
        OperationErrorView,
    > {
        match path_file_name(self.input_path) {
            None => Err(OperationErrorView::Detailed(NO_FILE_NAME@, self.input_path)),
            Some(name) => Ok(
                archive_plan_of(
                    name,
                    path_joined(temp_dir, archive_name_of(name)),
                    path_parent(self.input_path),
                    parent_is_dir,
                ),
            ),
        }
    }
}

/// The name of the archive of a bundle: the bundle's own, with `zip` for
/// its extension.
pub open spec fn archive_name_of(bundle_name: Seq<char>) -> Seq<char> {
    stem_of_name(bundle_name) + ".zip"@
}

/// How the bundle named `bundle_name` is archived to `payload`: the
/// archive keeps the bundle as its one top-level entry. The archiver runs in
/// the bundle's parent directory, or in the current directory where there is
/// no such directory.
pub open spec fn archive_plan_of(
    bundle_name: Seq<char>,
    payload: Seq<char>,
    parent: Option<Seq<char>>,
    parent_is_dir: bool,
) -> ZipPlanView {
    ZipPlanView {
        command: ToolCommandView {
            program: DITTO@,
            args: seq!["-ck"@, "--keepParent"@, bundle_name, payload],
            current_dir: Some(
                match parent {
                    Some(directory) => if parent_is_dir {
                        directory
                    } else {
                        "."@
                    },
                    None => "."@,
                },
            ),
        },
        payload,
    }
}

/// Whether the archiver made the archive.
pub open spec fn zipped_of(result: ToolResultView) -> Result<(), OperationErrorView> {
    match result {
        ToolResultView::NotStarted(reason) => Err(OperationErrorView::Text(reason)),
        ToolResultView::Finished(output) => if output.success() {
            Ok(())
        } else {
            Err(OperationErrorView::Text(ZIP_FAILED@))
        },
    }
}

/// What the submission tool printed, where it ran and exited with code 0;
/// else an error that carries both of its streams, the error stream first.
pub open spec fn altool_output_of(result: ToolResultView) -> Result<
    Seq<char>,
    OperationErrorView,
> {
    match result {
        ToolResultView::NotStarted(reason) => Err(OperationErrorView::Text(reason)),
        ToolResultView::Finished(output) => if output.success() {
            Ok(output.stdout)
        } else {
            Err(OperationErrorView::Detailed(SERVICE_ERROR@, output.stderr + output.stdout))
        },
    }
}

/// The identifier of the request in an upload answer; an answer that
/// could not be read is an error that carries what was printed.
pub open spec fn request_id_in(upload: Option<NotarizationUploadView>, printed: Seq<char>) -> Result<
    Seq<char>,
    OperationErrorView,
> {
    match upload {
        Some(u) => Ok(u.request_uuid),
        None => Err(OperationErrorView::Detailed(UNREADABLE_UPLOAD@, printed)),
    }
}

/// A status answer that carries the fixed confirmation message; an answer
/// that could not be read or carries another message is an error.
pub open spec fn confirmed(info: Option<NotarizationInfoView>, printed: Seq<char>) -> Result<
    NotarizationInfoView,
    OperationErrorView,
> {
    match info {
        None => Err(OperationErrorView::Detailed(UNREADABLE_STATUS@, printed)),
        Some(i) => if i.success_message == STATUS_CONFIRMATION@ {
            Ok(i)
        } else {
            Err(OperationErrorView::Detailed(UNEXPECTED_MESSAGE@, i.success_message))
        },
    }
}

/// The identifier of the request that an upload made.
pub open spec fn request_id_of(result: ToolResultView) -> Result<Seq<char>, OperationErrorView> {
    match altool_output_of(result) {
        Err(e) => Err(e),
        Ok(printed) => request_id_in(
            match readable_events(encode_utf8(printed)) {
                Some(events) => upload_of(events),
                None => None,
            },
            printed,
        ),
    }
}

/// The service's answer to a status query.
pub open spec fn status_of(result: ToolResultView) -> Result<
    NotarizationInfoView,
    OperationErrorView,
> {
    match altool_output_of(result) {
        Err(e) => Err(e),
        Ok(printed) => confirmed(
            match readable_events(encode_utf8(printed)) {
                Some(events) => info_of(events),
                None => None,
            },
            printed,
        ),
    }
}

/// Whether the stapler attached the ticket.
pub open spec fn stapled_of(result: ToolResultView) -> Result<(), OperationErrorView> {
    match result {
        ToolResultView::NotStarted(reason) => Err(OperationErrorView::Text(reason)),
        ToolResultView::Finished(output) => if output.success() {
            Ok(())
        } else {
            Err(OperationErrorView::Detailed(STAPLE_FAILED@, output.stderr))
        },
    }
}

/// The name of the archive of a bundle.
pub fn archive_name(bundle_name: &str) -> (name: String)
    ensures
        name@ == archive_name_of(bundle_name@),
{
    stem_of(bundle_name).concat(".zip")
}

/// How the bundle named `bundle_name` is archived to `payload`.
pub fn archive_plan(
    bundle_name: &str,
    payload: String,
    parent: Option<String>,
    parent_is_dir: bool,
) -> (plan: ZipPlan)
    ensures
        plan@ == archive_plan_of(bundle_name@, payload@, parent.deep_view(), parent_is_dir),
{
    let directory = match parent {
        Some(directory) => if parent_is_dir {
            directory
        } else {
            ".".to_owned()
        },
        None => ".".to_owned(),
    };
    let mut command = ToolCommand::new(DITTO);
    command.arg("-ck");
    command.arg("--keepParent");
    command.arg(bundle_name);
    command.arg(payload.as_str());
    command.current_dir = Some(directory);
    assert(command@.args =~= archive_plan_of(
        bundle_name@,
        payload@,
        parent.deep_view(),
        parent_is_dir,
    ).command.args);
    ZipPlan { command, payload }
}

/// The identifier of the request in an upload answer.
pub fn request_id_from(upload: Option<NotarizationUpload>, printed: &str) -> (request_id: Result<
    String,
    OperationError,
>)
    ensures
        match request_id_in(upload.deep_view(), printed@) {
            Ok(id) => request_id is Ok && request_id->Ok_0@ == id,
            Err(e) => request_id is Err && request_id->Err_0@ == e,
        },
{
    match upload {
        Some(upload) => Ok(upload.details.request_uuid),
        None => Err(OperationError::detail(UNREADABLE_UPLOAD, printed)),
    }
}

/// A status answer that carries the fixed confirmation message.
pub fn confirmed_status(info: Option<NotarizationInfo>, printed: &str) -> (status: Result<
    NotarizationInfo,
    OperationError,
>)
    ensures
        match confirmed(info.deep_view(), printed@) {
            Ok(i) => status is Ok && status->Ok_0@ == i,
            Err(e) => status is Err && status->Err_0@ == e,
        },
{
    let info = match info {
        Some(info) => info,
        None => {
            return Err(OperationError::detail(UNREADABLE_STATUS, printed));
        },
    };
    if !str_eq(info.success_message.as_str(), STATUS_CONFIRMATION) {
        return Err(OperationError::detail(UNEXPECTED_MESSAGE, info.success_message.as_str()));
    }
    Ok(info)
}

impl NotarizeOp {
    /// A submission of the artifact at `input_path` under `bundle_id`.
    pub fn new(
        input_path: String,
        path_type: PathType,
        bundle_id: String,
        developer_account: String,
        password_keychain_item: String,
        provider: Option<String>,
    ) -> (op: Self)
        ensures
            op@ == (NotarizeOpView {
                input_path: input_path@,
                path_type,
                bundle_id: bundle_id@,
                developer_account: developer_account@,
                password_keychain_item: password_keychain_item@,
                provider: provider.deep_view(),
            }),
    {
        NotarizeOp {
            input_path,
            path_type,
            bundle_id,
            developer_account,
            password_keychain_item,
            provider,
        }
    }

    /// A call of the submission tool with the arguments that every call
    /// starts with.
    fn altool(&self) -> (command: ToolCommand)
        ensures
            command@ == (ToolCommandView {
                program: XCRUN@,
                args: self@.altool_prefix(),
                current_dir: None,
            }),
    {
        let mut command = ToolCommand::new(XCRUN);
        command.arg("altool");
        command.arg("-u");
        command.arg(self.developer_account.as_str());
        command.arg("-p");
        let password = "@keychain:".to_owned().concat(self.password_keychain_item.as_str());
        command.arg(password.as_str());
        command.arg("--output-format");
        command.arg("xml");
        match &self.provider {
            Some(provider) => {
                command.arg("--asc-provider");
                command.arg(provider.as_str());
            },
            None => {},
        }
        assert(command@.args =~= self@.altool_prefix());
        command
    }

    /// The invocation that uploads the payload.
    pub fn upload_command(&self, payload: &str) -> (command: ToolCommand)
        ensures
            command@ == self@.upload_command(payload@),
    {
        let mut command = self.altool();
        command.arg("--notarize-app");
        command.arg("--file");
        command.arg(payload);
        command.arg("--primary-bundle-id");
        command.arg(self.bundle_id.as_str());
        assert(command@.args =~= self@.upload_command(payload@).args);
        command
    }

    /// The invocation that asks for the status of a request.
    pub fn status_command(&self, request_id: &str) -> (command: ToolCommand)
        ensures
            command@ == self@.status_command(request_id@),
    {
        let mut command = self.altool();
        command.arg("--notarization-info");
        command.arg(request_id);
        assert(command@.args =~= self@.status_command(request_id@).args);
        command
    }

    /// The invocation that staples the ticket to the artifact.
    pub fn staple_command(&self) -> (command: ToolCommand)
        ensures
            command@ == self@.staple_command(),
    {
        let mut command = ToolCommand::new(XCRUN);
        command.arg("stapler");
        command.arg("staple");
        command.arg(self.input_path.as_str());
        assert(command@.args =~= self@.staple_command().args);
        command
    }

    /// How the bundle is archived into `temp_dir`.
    pub fn zip_bundle(&self, temp_dir: &str, parent_is_dir: bool) -> (plan: Result<
        ZipPlan,
        OperationError,
    >)
        ensures
            match self@.zip_plan(temp_dir@, parent_is_dir) {
                Ok(p) => plan is Ok && plan->Ok_0@ == p,
                Err(e) => plan is Err && plan->Err_0@ == e,
            },
    {
        let name = match file_name_of(self.input_path.as_str()) {
            Some(name) => name,
            None => {
                return Err(OperationError::detail(NO_FILE_NAME, self.input_path.as_str()));
            },
        };
        let archive = archive_name(name.as_str());
        let payload = join_path(temp_dir, archive.as_str());
        let parent = parent_of(self.input_path.as_str());
        Ok(archive_plan(name.as_str(), payload, parent, parent_is_dir))
    }

    /// Whether the archiver made the archive.
    pub fn zipped(result: &ToolResult) -> (made: Result<(), OperationError>)
        ensures
            match zipped_of(result@) {
                Ok(_) => made is Ok,
                Err(e) => made is Err && made->Err_0@ == e,
            },
    {
        match result {
            ToolResult::NotStarted(reason) => Err(OperationError::new(reason.as_str())),
            ToolResult::Finished(output) => if output.success() {
                Ok(())
            } else {
                Err(OperationError::new(ZIP_FAILED))
            },
        }
    }

    /// What the submission tool printed, or the error that it ended with.
    pub fn run_altool(result: &ToolResult) -> (printed: Result<String, OperationError>)
        ensures
            match altool_output_of(result@) {
                Ok(text) => printed is Ok && printed->Ok_0@ == text,
                Err(e) => printed is Err && printed->Err_0@ == e,
            },
    {
        match result {
            ToolResult::NotStarted(reason) => Err(OperationError::new(reason.as_str())),
            ToolResult::Finished(output) => if output.success() {
                Ok(output.stdout.clone())
            } else {
                let combined = output.stderr.clone().concat(output.stdout.as_str());
                Err(OperationError::detail(SERVICE_ERROR, combined.as_str()))
            },
        }
    }

    /// The identifier of the request that an upload made.
    pub fn submit_to_service(result: &ToolResult) -> (request_id: Result<String, OperationError>)
        ensures
            match request_id_of(result@) {
                Ok(id) => request_id is Ok && request_id->Ok_0@ == id,
                Err(e) => request_id is Err && request_id->Err_0@ == e,
            },
    {
        let printed = match Self::run_altool(result) {
            Ok(printed) => printed,
            Err(e) => {
                return Err(e);
            },
        };
        request_id_from(
            notarization_upload_response(printed.as_str().as_bytes()),
            printed.as_str(),
        )
    }

    /// The service's answer to a status query.
    pub fn get_status(result: &ToolResult) -> (info: Result<NotarizationInfo, OperationError>)
        ensures
            match status_of(result@) {
                Ok(i) => info is Ok && info->Ok_0@ == i,
                Err(e) => info is Err && info->Err_0@ == e,
            },
    {
        let printed = match Self::run_altool(result) {
            Ok(printed) => printed,
            Err(e) => {
                return Err(e);
            },
        };
        confirmed_status(
            notarization_status_response(printed.as_str().as_bytes()),
            printed.as_str(),
        )
    }

    /// Whether the stapler attached the ticket.
    pub fn staple(result: &ToolResult) -> (stapled: Result<(), OperationError>)
        ensures
            match stapled_of(result@) {
                Ok(_) => stapled is Ok,
                Err(e) => stapled is Err && stapled->Err_0@ == e,
            },
    {
        match result {
            ToolResult::NotStarted(reason) => Err(OperationError::new(reason.as_str())),
            ToolResult::Finished(output) => if output.success() {
                Ok(())
            } else {
                Err(OperationError::detail(STAPLE_FAILED, output.stderr.as_str()))
            },
        }
    }
}

} // verus!
