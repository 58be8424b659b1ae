//! What an input path is: the kind of artifact that its extension names, and
//! the identifier that the artifact is submitted under.

use vstd::prelude::*;
use vstd::string::*;
use crate::documents::{bundle_info_from_file, bundle_info_of, BundleInfo, BundleInfoView};
use crate::error::{OperationError, OperationErrorView};
use crate::property_list::readable_events;
use crate::text::{chars_of, str_eq};

verus! {

/// `String::push` appends the given character to the end of the string.
pub assume_specification[ String::push ](s: &mut String, c: char)
    ensures
        final(s)@ == old(s)@.push(c),
;

/// The kinds of artifact that can be checked and submitted.
#[derive(Debug, Clone, Copy, PartialEq, Eq, Structural)]
pub enum PathType {
    AppBundle,
    DiskImage,
    InstallerPackage,
}

/// The final component of a path, as `std::path::Path::file_name` gives it.
pub uninterp spec fn path_file_name(path: Seq<char>) -> Option<Seq<char>>;

/// A path without its final component, as `std::path::Path::parent` gives it.
pub uninterp spec fn path_parent(path: Seq<char>) -> Option<Seq<char>>;

/// A path with another adjoined, as `std::path::Path::join` gives it.
pub uninterp spec fn path_joined(base: Seq<char>, part: Seq<char>) -> Seq<char>;

/// Calls `std::path::Path::file_name` on the path and hands its result back
/// as a string. The contract only names that result.
#[verifier::external_body]
pub(crate) fn file_name_of(path: &str) -> (name: Option<String>)
    ensures
        name.deep_view() == path_file_name(path@),
{
    std::path::Path::new(path).file_name().map(|name| name.to_string_lossy().into_owned())
}

/// Calls `std::path::Path::parent` on the path and hands its result back as
/// a string. The contract only names that result.
#[verifier::external_body]
pub(crate) fn parent_of(path: &str) -> (parent: Option<String>)
    ensures
        parent.deep_view() == path_parent(path@),
{
    std::path::Path::new(path).parent().map(|parent| parent.to_string_lossy().into_owned())
}

/// Calls `std::path::Path::join` on `base` with `part` and hands its result
/// back as a string. The contract only names that result.
#[verifier::external_body]
pub(crate) fn join_path(base: &str, part: &str) -> (joined: String)
    ensures
        joined@ == path_joined(base@, part@),
{
    std::path::Path::new(base).join(part).to_string_lossy().into_owned()
}

/// `at` is where the last dot of `name` stands.
pub open spec fn is_last_dot(name: Seq<char>, at: int) -> bool {
    &&& 0 <= at < name.len()
    &&& name[at] == '.'
    &&& forall|j: int| at < j < name.len() ==> name[j] != '.'
}

/// Where a file name splits into stem and extension: at its last dot, unless
/// that dot starts the name or the name is `..`.
pub open spec fn split_point(name: Seq<char>) -> Option<int> {
    if name != ".."@ && exists|at: int| 0 < at && is_last_dot(name, at) {
        Some(choose|at: int| 0 < at && is_last_dot(name, at))
    } else {
        None
    }
}

/// The extension of a file name: what follows its last dot.
pub open spec fn extension_of_name(name: Seq<char>) -> Option<Seq<char>> {
    match split_point(name) {
        Some(at) => Some(name.subrange(at + 1, name.len() as int)),
        None => None,
    }
}

/// The stem of a file name: what precedes its last dot, or all of it.
pub open spec fn stem_of_name(name: Seq<char>) -> Seq<char> {
    match split_point(name) {
        Some(at) => name.subrange(0, at),
        None => name,
    }
}

/// The extension of a path: that of its final component.
pub open spec fn path_extension(path: Seq<char>) -> Option<Seq<char>> {
    match path_file_name(path) {
        Some(name) => extension_of_name(name),
        None => None,
    }
}

/// The kind that an extension names. The match is exact in case.
pub open spec fn path_type_of(extension: Option<Seq<char>>) -> Option<PathType> {
    match extension {
        Some(e) => if e == "app"@ {
            Some(PathType::AppBundle)
        } else if e == "dmg"@ {
            Some(PathType::DiskImage)
        } else if e == "pkg"@ {
            Some(PathType::InstallerPackage)
        } else {
            None
        },
        None => None,
    }
}

/// The error for a path whose extension names no kind.
pub open spec fn classification_error(path: Seq<char>) -> OperationErrorView {
    OperationErrorView::Text(
        "Expected an application bundle, disk image, or installer package at "@ + path,
    )
}

/// The identifier made up for an artifact that carries none: its file name
/// with a dot for every character that is no ASCII letter or digit.
pub open spec fn pseudo_bundle_id(name: Seq<char>) -> Seq<char> {
    Seq::new(name.len(), |i: int| if is_ascii_alphanumeric(name[i]) { name[i] } else { '.' })
}

/// An ASCII letter or digit.
pub open spec fn is_ascii_alphanumeric(c: char) -> bool {
    ('a' <= c && c <= 'z') || ('A' <= c && c <= 'Z') || ('0' <= c && c <= '9')
}

/// Where the last dot of `name` stands, if it has one.
fn find_last_dot(name: &[char]) -> (at: Option<usize>)
    ensures
        match at {
            Some(i) => is_last_dot(name@, i as int),
            None => forall|j: int| 0 <= j < name.len() ==> name@[j] != '.',
        },
{
    let mut i: usize = name.len();
    while i > 0
        invariant
            i <= name.len(),
            forall|j: int| i <= j < name.len() ==> name@[j] != '.',
        decreases i,
    {
        i -= 1;
        if name[i] == '.' {
            return Some(i);
        }
    }
    None
}

/// Where `name` splits into stem and extension.
fn find_split_point(name: &str) -> (at: Option<usize>)
    ensures
        match at {
            Some(i) => split_point(name@) == Some(i as int) && 0 < i < name@.len(),
            None => split_point(name@) is None,
        },
{
    if str_eq(name, "..") {
        return None;
    }
    let chars = chars_of(name);
    match find_last_dot(chars.as_slice()) {
        Some(i) => {
            if i > 0 {
                assert(0 < i && is_last_dot(name@, i as int));
                proof {
                    let c = choose|at: int| 0 < at && is_last_dot(name@, at);
                    assert(c == i) by {
                        if c < i {
                            assert(name@[i as int] == '.');
                        } else if i < c {
                            assert(name@[c] == '.');
                        }
                    }
                }
                Some(i)
            } else {
                assert forall|at: int| !(0 < at && is_last_dot(name@, at)) by {
                    if 0 < at && is_last_dot(name@, at) {
                        assert(name@[at] == '.');
                    }
                }
                None
            }
        },
        None => None,
    }
}

/// The extension of a file name.
pub fn extension_of(name: &str) -> (extension: Option<String>)
    ensures
        extension.deep_view() == extension_of_name(name@),
{
    match find_split_point(name) {
        Some(at) => {
            let n = name.unicode_len();
            Some(name.substring_char(at + 1, n).to_owned())
        },
        None => None,
    }
}

/// The stem of a file name.
pub fn stem_of(name: &str) -> (stem: String)
    ensures
        stem@ == stem_of_name(name@),
{
    match find_split_point(name) {
        Some(at) => {
            name.substring_char(0, at).to_owned()
        },
        None => name.to_owned(),
    }
}

impl PathType {
    /// The kind that an extension names.
    pub fn from_extension(extension: Option<&str>) -> (kind: Option<PathType>)
        ensures
            kind == path_type_of(
                match extension {
                    Some(e) => Some(e@),
                    None => None,
                },
            ),
    {
        match extension {
            Some(e) => {
                if str_eq(e, "app") {
                    Some(PathType::AppBundle)
                } else if str_eq(e, "dmg") {
                    Some(PathType::DiskImage)
                } else if str_eq(e, "pkg") {
                    Some(PathType::InstallerPackage)
                } else {
                    None
                }
            },
            None => None,
        }
    }
}

/// The kind of artifact at a path: a function of the path's extension alone.
/// A path whose extension names no kind is an error that lists the three.
pub fn identify_path_type(bundle_path: &str) -> (kind: Result<PathType, OperationError>)
    ensures
        match path_type_of(path_extension(bundle_path@)) {
            Some(k) => kind == Ok::<PathType, OperationError>(k),
            None => kind is Err && kind->Err_0@ == classification_error(bundle_path@),
        },
{
    let extension = match file_name_of(bundle_path) {
        Some(name) => extension_of(name.as_str()),
        None => None,
    };
    let found = match &extension {
        Some(e) => PathType::from_extension(Some(e.as_str())),
        None => PathType::from_extension(None),
    };
    match found {
        Some(k) => Ok(k),
        None => Err(classification_failure(bundle_path)),
    }
}

/// The error for a path whose extension names no kind.
fn classification_failure(path: &str) -> (error: OperationError)
    ensures
        error@ == classification_error(path@),
{
    OperationError::Text(
        "Expected an application bundle, disk image, or installer package at ".to_owned().concat(
            path,
        ),
    )
}

/// Paths with the same extension are of the same kind, or both of none; and
/// a path is of a kind only where its extension is `app`, `dmg` or `pkg`.
pub proof fn lemma_kind_follows_extension(first: Seq<char>, second: Seq<char>)
    requires
        path_extension(first) == path_extension(second),
    ensures
        path_type_of(path_extension(first)) == path_type_of(path_extension(second)),
        path_type_of(path_extension(first)) is Some ==> path_extension(first) == Some("app"@)
            || path_extension(first) == Some("dmg"@) || path_extension(first) == Some("pkg"@),
{
}

/// The identifier made up for an artifact that carries none.
pub fn make_pseudo_bundle_id(name: &str) -> (id: String)
    ensures
        id@ == pseudo_bundle_id(name@),
{
    let chars = chars_of(name);
    let mut id = String::new();
    let mut i: usize = 0;
    while i < chars.len()
        invariant
            i <= chars.len(),
            chars@ == name@,
            id@ == pseudo_bundle_id(name@).take(i as int),
        decreases chars.len() - i,
    {
        let c = chars[i];
        let keep = ('a' <= c && c <= 'z') || ('A' <= c && c <= 'Z') || ('0' <= c && c <= '9');
        id.push(if keep { c } else { '.' });
        assert(id@ =~= pseudo_bundle_id(name@).take(i + 1));
        i += 1;
    }
    assert(id@ =~= pseudo_bundle_id(name@));
    id
}

/// What was found on disk where a bundle should be.
#[derive(Debug, Clone)]
pub enum BundleProbe {
    /// Nothing is at the bundle's path.
    Missing,
    /// The bundle is there, its `Info.plist` is not.
    NoInfoPlist,
    /// The contents of the bundle's `Info.plist`.
    InfoPlist(Vec<u8>),
}

/// `BundleProbe` as a mathematical value: the file's contents are a sequence of bytes.
pub enum BundleProbeView {
    Missing,
    NoInfoPlist,
    InfoPlist(Seq<u8>),
}

impl View for BundleProbe {
    type V = BundleProbeView;

    open spec fn view(&self) -> BundleProbeView {
        match self {
            BundleProbe::Missing => BundleProbeView::Missing,
            BundleProbe::NoInfoPlist => BundleProbeView::NoInfoPlist,
            BundleProbe::InfoPlist(contents) => BundleProbeView::InfoPlist(contents@),
        }
    }
}

/// Where a bundle keeps its `Info.plist`.
pub open spec fn info_plist_location(bundle_path: Seq<char>) -> Seq<char> {
    path_joined(path_joined(bundle_path, "Contents"@), "Info.plist"@)
}

/// What a bundle says of itself, given what was found on disk; each way of
/// being malformed has an error of its own.
pub open spec fn bundle_info_read(bundle_path: Seq<char>, probe: BundleProbeView) -> Result<
    BundleInfoView,
    OperationErrorView,
> {
    match probe {
        BundleProbeView::Missing => Err(
            OperationErrorView::Text("Path not found: "@ + bundle_path),
        ),
        BundleProbeView::NoInfoPlist => Err(
            OperationErrorView::Text(
                "Info.plist was not found at "@ + info_plist_location(bundle_path),
            ),
        ),
        BundleProbeView::InfoPlist(contents) => {
            let parsed = match readable_events(contents) {
                Some(events) => bundle_info_of(events),
                None => None,
            };
            match parsed {
                Some(info) => Ok(info),
                None => Err(
                    OperationErrorView::Text(
                        "Info.plist could not be read at "@ + info_plist_location(bundle_path),
                    ),
                ),
            }
        },
    }
}

/// The kind and the identifier of the artifact at a path. A bundle's
/// identifier is the one in its `Info.plist`; a disk image or a package gets
/// one made from its file name.
pub open spec fn path_info_of(input_path: Seq<char>, probe: BundleProbeView) -> Result<
    (PathType, Seq<char>),
    OperationErrorView,
> {
    match path_type_of(path_extension(input_path)) {
        None => Err(classification_error(input_path)),
        Some(PathType::AppBundle) => match bundle_info_read(input_path, probe) {
            Ok(info) => Ok((PathType::AppBundle, info.id)),
            Err(e) => Err(e),
        },
        Some(kind) => Ok((kind, pseudo_bundle_id(path_file_name(input_path)->0))),
    }
}

/// Where a bundle keeps its `Info.plist`.
pub fn info_plist_path(bundle_path: &str) -> (path: String)
    ensures
        path@ == info_plist_location(bundle_path@),
{
    let contents = join_path(bundle_path, "Contents");
    join_path(contents.as_str(), "Info.plist")
}

/// What a bundle says of itself, given what was found on disk.
pub fn read_bundle_info(bundle_path: &str, probe: &BundleProbe) -> (info: Result<
    BundleInfo,
    OperationError,
>)
    ensures
        match bundle_info_read(bundle_path@, probe@) {
            Ok(v) => info is Ok && info->Ok_0@ == v,
            Err(e) => info is Err && info->Err_0@ == e,
        },
{
    match probe {
        BundleProbe::Missing => Err(
            OperationError::Text("Path not found: ".to_owned().concat(bundle_path)),
        ),
        BundleProbe::NoInfoPlist => {
            let location = info_plist_path(bundle_path);
            Err(
                OperationError::Text(
                    "Info.plist was not found at ".to_owned().concat(location.as_str()),
                ),
            )
        },
        BundleProbe::InfoPlist(contents) => match bundle_info_from_file(contents.as_slice()) {
            Some(info) => Ok(info),
            None => {
                let location = info_plist_path(bundle_path);
                Err(
                    OperationError::Text(
                        "Info.plist could not be read at ".to_owned().concat(location.as_str()),
                    ),
                )
            },
        },
    }
}

/// The kind and the identifier of the artifact at a path. `probe` is read
/// for a bundle only.
pub fn path_info(input_path: &str, probe: &BundleProbe) -> (info: Result<
    (PathType, String),
    OperationError,
>)
    ensures
        match path_info_of(input_path@, probe@) {
            Ok(v) => info is Ok && info->Ok_0.0 == v.0 && info->Ok_0.1@ == v.1,
            Err(e) => info is Err && info->Err_0@ == e,
        },
{
    let path_type = match identify_path_type(input_path) {
        Ok(kind) => kind,
        Err(e) => {
            return Err(e);
        },
    };
    match path_type {
        PathType::AppBundle => match read_bundle_info(input_path, probe) {
            Ok(info) => Ok((path_type, info.id)),
            Err(e) => Err(e),
        },
        PathType::DiskImage | PathType::InstallerPackage => match file_name_of(input_path) {
            Some(name) => Ok((path_type, make_pseudo_bundle_id(name.as_str()))),
            None => Err(classification_failure(input_path)),
        },
    }
}

} // verus!
