//! The property-list documents that the workflow reads: a bundle's
//! `Info.plist`, its entitlements, and the two answers of the notarization
//! service.

use vstd::prelude::*;
use vstd::string::*;
use crate::property_list::{
    check_document, is_document, optional_flag, optional_text, events_of, readable_events,
    read_optional_flag, read_optional_text, read_required_dictionary, read_required_text,
    required_dictionary, required_text, PlistEvent, PlistEventView,
};
use crate::text::str_eq;

verus! {

/// What a bundle's `Info.plist` says of it.
#[derive(Debug, Clone)]
pub struct BundleInfo {
    pub id: String,
    pub version: String,
    pub short_version_string: String,
}

/// `BundleInfo` as a mathematical value: its strings are sequences of characters.
pub struct BundleInfoView {
    pub id: Seq<char>,
    pub version: Seq<char>,
    pub short_version_string: Seq<char>,
}

impl View for BundleInfo {
    type V = BundleInfoView;

    open spec fn view(&self) -> BundleInfoView {
        BundleInfoView {
            id: self.id@,
            version: self.version@,
            short_version_string: self.short_version_string@,
        }
    }
}

impl DeepView for BundleInfo {
    type V = BundleInfoView;

    open spec fn deep_view(&self) -> BundleInfoView {
        self@
    }
}

/// The verdict of the notarization service on one submission. `InProgress`
/// is the only one after which asking again makes sense.
#[derive(Debug, Clone, Copy, PartialEq, Eq, Structural)]
pub enum NotarizationStatus {
    InProgress,
    Success,
    Invalid,
}

/// The service's answer to a status query.
#[derive(Debug, Clone)]
pub struct NotarizationInfo {
    pub details: NotarizationInfoDetails,
    pub success_message: String,
}

/// What the service says of the request itself.
#[derive(Debug, Clone)]
pub struct NotarizationInfoDetails {
    pub logfile_url: Option<String>,
    pub request_uuid: String,
    pub status: NotarizationStatus,
}

/// `NotarizationInfo` as a mathematical value: its strings are sequences of characters.
pub struct NotarizationInfoView {
    pub logfile_url: Option<Seq<char>>,
    pub request_uuid: Seq<char>,
    pub status: NotarizationStatus,
    pub success_message: Seq<char>,
}

impl View for NotarizationInfo {
    type V = NotarizationInfoView;

    open spec fn view(&self) -> NotarizationInfoView {
        NotarizationInfoView {
            logfile_url: self.details.logfile_url.deep_view(),
            request_uuid: self.details.request_uuid@,
            status: self.details.status,
            success_message: self.success_message@,
        }
    }
}

impl DeepView for NotarizationInfo {
    type V = NotarizationInfoView;

    open spec fn deep_view(&self) -> NotarizationInfoView {
        self@
    }
}

/// The entitlements that a bundle was signed with, as far as the checks
/// read them.
#[derive(Debug, Clone, Copy, PartialEq, Eq, Structural)]
pub struct BundleEntitlements {
    pub get_task_allow: Option<bool>,
}

/// The service's answer to an upload.
#[derive(Debug, Clone)]
pub struct NotarizationUpload {
    pub details: NotarizationUploadDetails,
    pub success_message: String,
}

/// What the service says of the request that the upload made.
#[derive(Debug, Clone)]
pub struct NotarizationUploadDetails {
    pub request_uuid: String,
}

/// `NotarizationUpload` as a mathematical value: its strings are sequences of characters.
pub struct NotarizationUploadView {
    pub request_uuid: Seq<char>,
    pub success_message: Seq<char>,
}

impl View for NotarizationUpload {
    type V = NotarizationUploadView;

    open spec fn view(&self) -> NotarizationUploadView {
        NotarizationUploadView {
            request_uuid: self.details.request_uuid@,
            success_message: self.success_message@,
        }
    }
}

impl DeepView for NotarizationUpload {
    type V = NotarizationUploadView;

    open spec fn deep_view(&self) -> NotarizationUploadView {
        self@
    }
}

/// The verdict that the service spells as `text`.
pub open spec fn status_named(text: Seq<char>) -> Option<NotarizationStatus> {
    if text == "in progress"@ {
        Some(NotarizationStatus::InProgress)
    } else if text == "success"@ {
        Some(NotarizationStatus::Success)
    } else if text == "invalid"@ {
        Some(NotarizationStatus::Invalid)
    } else {
        None
    }
}

/// The bundle information that the events hold: a dictionary with the
/// identifier, the version and the short version string, each a string and
/// each present once. Other keys are passed over.
pub open spec fn bundle_info_of(events: Seq<PlistEventView>) -> Option<BundleInfoView> {
    if !is_document(events) {
        None
    } else {
        match (
            required_text(events, 1, "CFBundleIdentifier"@),
            required_text(events, 1, "CFBundleVersion"@),
            required_text(events, 1, "CFBundleShortVersionString"@),
        ) {
            (Some(id), Some(version), Some(short_version_string)) => Some(
                BundleInfoView { id, version, short_version_string },
            ),
            _ => None,
        }
    }
}

/// The upload answer that the events hold: a dictionary with the success
/// message and, under `notarization-upload`, a dictionary with the request's
/// identifier.
pub open spec fn upload_of(events: Seq<PlistEventView>) -> Option<NotarizationUploadView> {
    if !is_document(events) {
        None
    } else {
        match (
            required_dictionary(events, 1, "notarization-upload"@),
            required_text(events, 1, "success-message"@),
        ) {
            (Some(inner), Some(success_message)) => match required_text(
                events,
                inner,
                "RequestUUID"@,
            ) {
                Some(request_uuid) => Some(NotarizationUploadView { request_uuid, success_message }),
                None => None,
            },
            _ => None,
        }
    }
}

/// The status answer that the events hold: a dictionary with the success
/// message and, under `notarization-info`, a dictionary with the request's
/// identifier, a status that spells a verdict, and perhaps the log's URL.
pub open spec fn info_of(events: Seq<PlistEventView>) -> Option<NotarizationInfoView> {
    if !is_document(events) {
        None
    } else {
        match (
            required_dictionary(events, 1, "notarization-info"@),
            required_text(events, 1, "success-message"@),
        ) {
            (Some(inner), Some(success_message)) => match (
                optional_text(events, inner, "LogFileURL"@),
                required_text(events, inner, "RequestUUID"@),
                required_text(events, inner, "Status"@),
            ) {
                (Some(logfile_url), Some(request_uuid), Some(status_text)) => match status_named(
                    status_text,
                ) {
                    Some(status) => Some(
                        NotarizationInfoView { logfile_url, request_uuid, status, success_message },
                    ),
                    None => None,
                },
                _ => None,
            },
            _ => None,
        }
    }
}

/// The entitlements that the events hold: a dictionary in which the
/// debugging allowance, where present, is a boolean and stands once.
pub open spec fn entitlements_of(events: Seq<PlistEventView>) -> Option<BundleEntitlements> {
    if !is_document(events) {
        None
    } else {
        match optional_flag(events, 1, "com.apple.security.get-task-allow"@) {
            Some(get_task_allow) => Some(BundleEntitlements { get_task_allow }),
            None => None,
        }
    }
}

impl NotarizationStatus {
    /// The verdict that the service spells as `text`.
    pub fn parse(text: &str) -> (status: Option<Self>)
        ensures
            status == status_named(text@),
    {
        if str_eq(text, "in progress") {
            Some(NotarizationStatus::InProgress)
        } else if str_eq(text, "success") {
            Some(NotarizationStatus::Success)
        } else if str_eq(text, "invalid") {
            Some(NotarizationStatus::Invalid)
        } else {
            None
        }
    }

    /// Whether polling ends with this verdict.
    pub fn is_terminal(&self) -> (terminal: bool)
        ensures
            terminal == !(*self is InProgress),
    {
        match self {
            NotarizationStatus::InProgress => false,
            _ => true,
        }
    }
}

impl BundleInfo {
    /// The bundle information that the events hold.
    pub fn from_events(events: &[PlistEvent]) -> (info: Option<Self>)
        ensures
            info.deep_view() == bundle_info_of(events.deep_view()),
    {
        if !check_document(events) {
            return None;
        }
        let id = read_required_text(events, 1, "CFBundleIdentifier");
        let version = read_required_text(events, 1, "CFBundleVersion");
        let short_version_string = read_required_text(events, 1, "CFBundleShortVersionString");
        match (id, version, short_version_string) {
            (Some(id), Some(version), Some(short_version_string)) => Some(
                BundleInfo { id, version, short_version_string },
            ),
            _ => None,
        }
    }
}

impl NotarizationUpload {
    /// The upload answer that the events hold.
    pub fn from_events(events: &[PlistEvent]) -> (upload: Option<Self>)
        ensures
            upload.deep_view() == upload_of(events.deep_view()),
    {
        if !check_document(events) {
            return None;
        }
        let inner = read_required_dictionary(events, 1, "notarization-upload");
        let success_message = read_required_text(events, 1, "success-message");
        match (inner, success_message) {
            (Some(inner), Some(success_message)) => match read_required_text(
                events,
                inner,
                "RequestUUID",
            ) {
                Some(request_uuid) => Some(
                    NotarizationUpload {
                        details: NotarizationUploadDetails { request_uuid },
                        success_message,
                    },
                ),
                None => None,
            },
            _ => None,
        }
    }
}

impl NotarizationInfo {
    /// The status answer that the events hold.
    pub fn from_events(events: &[PlistEvent]) -> (info: Option<Self>)
        ensures
            info.deep_view() == info_of(events.deep_view()),
    {
        if !check_document(events) {
            return None;
        }
        let inner = read_required_dictionary(events, 1, "notarization-info");
        let success_message = read_required_text(events, 1, "success-message");
        match (inner, success_message) {
            (Some(inner), Some(success_message)) => {
                let logfile_url = read_optional_text(events, inner, "LogFileURL");
                let request_uuid = read_required_text(events, inner, "RequestUUID");
                let status_text = read_required_text(events, inner, "Status");
                match (logfile_url, request_uuid, status_text) {
                    (Some(logfile_url), Some(request_uuid), Some(status_text)) => {
                        match NotarizationStatus::parse(status_text.as_str()) {
                            Some(status) => Some(
                                NotarizationInfo {
                                    details: NotarizationInfoDetails {
                                        logfile_url,
                                        request_uuid,
                                        status,
                                    },
                                    success_message,
                                },
                            ),
                            None => None,
                        }
                    },
                    _ => None,
                }
            },
            _ => None,
        }
    }
}

impl BundleEntitlements {
    /// The entitlements that the events hold.
    pub fn from_events(events: &[PlistEvent]) -> (entitlements: Option<Self>)
        ensures
            entitlements == entitlements_of(events.deep_view()),
    {
        if !check_document(events) {
            return None;
        }
        match read_optional_flag(events, 1, "com.apple.security.get-task-allow") {
            Some(get_task_allow) => Some(BundleEntitlements { get_task_allow }),
            None => None,
        }
    }
}

/// Reads the contents of an `Info.plist` file: `None` where they are no
/// property list or lack one of the three fields.
pub fn bundle_info_from_file(contents: &[u8]) -> (info: Option<BundleInfo>)
    ensures
        info.deep_view() == match readable_events(contents@) {
            Some(events) => bundle_info_of(events),
            None => None,
        },
{
    match events_of(contents) {
        Some(events) => BundleInfo::from_events(events.as_slice()),
        None => None,
    }
}

/// Reads the service's answer to an upload.
pub fn notarization_upload_response(bytes: &[u8]) -> (upload: Option<NotarizationUpload>)
    ensures
        upload.deep_view() == match readable_events(bytes@) {
            Some(events) => upload_of(events),
            None => None,
        },
{
    match events_of(bytes) {
        Some(events) => NotarizationUpload::from_events(events.as_slice()),
        None => None,
    }
}

/// Reads the service's answer to a status query.
pub fn notarization_status_response(bytes: &[u8]) -> (info: Option<NotarizationInfo>)
    ensures
        info.deep_view() == match readable_events(bytes@) {
            Some(events) => info_of(events),
            None => None,
        },
{
    match events_of(bytes) {
        Some(events) => NotarizationInfo::from_events(events.as_slice()),
        None => None,
    }
}

/// Reads the entitlements that the signing tool printed.
pub fn bundle_entitlemens(bytes: &[u8]) -> (entitlements: Option<BundleEntitlements>)
    ensures
        entitlements == match readable_events(bytes@) {
            Some(events) => entitlements_of(events),
            None => None,
        },
{
    match events_of(bytes) {
        Some(events) => BundleEntitlements::from_events(events.as_slice()),
        None => None,
    }
}

} // verus!
