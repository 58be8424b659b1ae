//! The two families of failure: a validation failure that the user can act
//! on, and an operation error for everything outside the artifact's control.

use vstd::prelude::*;
use vstd::string::*;

verus! {

/// Where a validation failure points the user when it names no page of its own.
pub const DEFAULT_HELP_URL: &'static str =
    "https://developer.apple.com/documentation/xcode/notarizing_macos_software_before_distribution/resolving_common_notarization_issues";

/// How a stretch of a rendered text is meant to stand out.
#[derive(Debug, Clone, Copy, PartialEq, Eq, Structural)]
pub enum Emphasis {
    /// Ordinary text.
    Plain,
    /// What went wrong.
    Alert,
    /// The title of a section.
    Heading,
}

/// A stretch of a rendered text, and how it is meant to stand out.
#[derive(Debug)]
pub struct TextPart {
    pub emphasis: Emphasis,
    pub text: String,
}

/// `TextPart` as a mathematical value: its strings are sequences of characters.
pub struct TextPartView {
    pub emphasis: Emphasis,
    pub text: Seq<char>,
}

impl View for TextPart {
    type V = TextPartView;

    open spec fn view(&self) -> TextPartView {
        TextPartView { emphasis: self.emphasis, text: self.text@ }
    }
}

impl DeepView for TextPart {
    type V = TextPartView;

    open spec fn deep_view(&self) -> TextPartView {
        self@
    }
}

/// The text that the parts make up, one after the other.
pub open spec fn joined(parts: Seq<TextPartView>) -> Seq<char>
    decreases parts.len(),
{
    if parts.len() == 0 {
        Seq::empty()
    } else {
        joined(parts.drop_last()) + parts.last().text
    }
}

/// A part with the given emphasis.
pub open spec fn part(emphasis: Emphasis, text: Seq<char>) -> TextPartView {
    TextPartView { emphasis, text }
}

/// The text that the parts make up, one after the other.
pub fn join_parts(parts: &Vec<TextPart>) -> (text: String)
    ensures
        text@ == joined(parts.deep_view()),
{
    let mut text = String::new();
    let mut i: usize = 0;
    while i < parts.len()
        invariant
            i <= parts.len(),
            text@ == joined(parts.deep_view().take(i as int)),
        decreases parts.len() - i,
    {
        text.append(parts[i].text.as_str());
        proof {
            let upto = parts.deep_view().take(i + 1);
            assert(upto.drop_last() =~= parts.deep_view().take(i as int));
            assert(upto.last() == parts[i as int]@);
        }
        i += 1;
    }
    assert(parts.deep_view().take(parts.len() as int) =~= parts.deep_view());
    text
}

fn make_part(emphasis: Emphasis, text: String) -> (made: TextPart)
    ensures
        made@ == part(emphasis, text@),
{
    TextPart { emphasis, text }
}

/// An operation that could not be carried out: a tool that did not run, output
/// that could not be read, a service that answered with an error.
#[derive(Debug)]
pub enum OperationError {
    Text(String),
    Detailed(String, String),
}

/// `OperationError` as a mathematical value: its strings are sequences of characters.
pub enum OperationErrorView {
    Text(Seq<char>),
    Detailed(Seq<char>, Seq<char>),
}

impl View for OperationError {
    type V = OperationErrorView;

    open spec fn view(&self) -> OperationErrorView {
        match self {
            OperationError::Text(text) => OperationErrorView::Text(text@),
            OperationError::Detailed(heading, text) => OperationErrorView::Detailed(
                heading@,
                text@,
            ),
        }
    }
}

impl OperationErrorView {
    /// The text shown for this error.
    pub open spec fn rendered(self) -> Seq<char> {
        match self {
            OperationErrorView::Text(text) => "Error: "@ + text,
            OperationErrorView::Detailed(heading, text) => heading + ":\n"@ + text,
        }
    }

    /// The text shown for this error, in parts: what stands out is the
    /// prefix of a plain error and the heading of a detailed one.
    pub open spec fn parts(self) -> Seq<TextPartView> {
        match self {
            OperationErrorView::Text(text) => seq![
                part(Emphasis::Alert, "Error: "@),
                part(Emphasis::Plain, text),
            ],
            OperationErrorView::Detailed(heading, text) => seq![
                part(Emphasis::Alert, heading),
                part(Emphasis::Plain, ":\n"@ + text),
            ],
        }
    }
}

/// A message alone makes a plain error.
impl From<String> for OperationError {
    fn from(err: String) -> (error: Self) {
        OperationError::Text(err)
    }
}

impl vstd::std_specs::convert::FromSpecImpl<String> for OperationError {
    open spec fn obeys_from_spec() -> bool {
        true
    }

    open spec fn from_spec(err: String) -> Self {
        OperationError::Text(err)
    }
}

impl Clone for OperationError {
    fn clone(&self) -> (copy: Self)
        ensures
            copy@ == self@,
    {
        match self {
            OperationError::Text(text) => OperationError::Text(text.clone()),
            OperationError::Detailed(heading, text) => OperationError::Detailed(
                heading.clone(),
                text.clone(),
            ),
        }
    }
}

impl OperationError {
    /// An error that is its message.
    pub fn new(message: &str) -> (error: Self)
        ensures
            error@ == OperationErrorView::Text(message@),
    {
        OperationError::Text(message.to_owned())
    }

    /// An error with a heading, and under it the text that says more.
    pub fn detail(heading: &str, message: &str) -> (error: Self)
        ensures
            error@ == OperationErrorView::Detailed(heading@, message@),
    {
        OperationError::Detailed(heading.to_owned(), message.to_owned())
    }

    /// The text shown for this error, without any styling.
    pub fn render(&self) -> (text: String)
        ensures
            text@ == self@.rendered(),
    {
        match self {
            OperationError::Text(text) => "Error: ".to_owned().concat(text.as_str()),
            OperationError::Detailed(heading, text) => heading.clone().concat(":\n").concat(
                text.as_str(),
            ),
        }
    }

    /// The text shown for this error, in parts that say what is to stand
    /// out. Put together, the parts are the rendered text.
    pub fn parts(&self) -> (parts: Vec<TextPart>)
        ensures
            parts.deep_view() == self@.parts(),
            joined(parts.deep_view()) == self@.rendered(),
    {
        let mut parts: Vec<TextPart> = Vec::new();
        match self {
            OperationError::Text(text) => {
                parts.push(make_part(Emphasis::Alert, "Error: ".to_owned()));
                parts.push(make_part(Emphasis::Plain, text.clone()));
            },
            OperationError::Detailed(heading, text) => {
                parts.push(make_part(Emphasis::Alert, heading.clone()));
                parts.push(make_part(Emphasis::Plain, ":\n".to_owned().concat(text.as_str())));
            },
        }
        proof {
            assert(parts.deep_view() =~= self@.parts());
            lemma_operation_error_parts(self@);
        }
        parts
    }
}

/// The parts of an operation error make up its rendered text.
pub proof fn lemma_operation_error_parts(error: OperationErrorView)
    ensures
        joined(error.parts()) == error.rendered(),
{
    let parts = error.parts();
    assert(parts.drop_last() =~= seq![parts[0]]);
    assert(parts.drop_last().drop_last() =~= Seq::<TextPartView>::empty());
    assert(joined(parts.drop_last().drop_last()) =~= Seq::<char>::empty());
    assert(joined(parts.drop_last()) =~= parts[0].text);
    assert(joined(parts) =~= error.rendered());
}

/// A requirement that the artifact does not meet.
#[derive(Debug)]
pub struct PrecheckError {
    pub message: String,
    pub solution: String,
    pub see_also: Option<String>,
}

/// `PrecheckError` as a mathematical value: its strings are sequences of characters.
pub struct PrecheckErrorView {
    pub message: Seq<char>,
    pub solution: Seq<char>,
    pub see_also: Option<Seq<char>>,
}

impl View for PrecheckError {
    type V = PrecheckErrorView;

    open spec fn view(&self) -> PrecheckErrorView {
        PrecheckErrorView {
            message: self.message@,
            solution: self.solution@,
            see_also: self.see_also.deep_view(),
        }
    }
}

impl PrecheckErrorView {
    /// A failure always says what is wrong and how to mend it.
    pub open spec fn wf(self) -> bool {
        self.message.len() > 0 && self.solution.len() > 0
    }

    /// The page the user is sent to.
    pub open spec fn reference_url(self) -> Seq<char> {
        match self.see_also {
            Some(url) => url,
            None => DEFAULT_HELP_URL@,
        }
    }

    /// The text shown for this failure, in parts: a title that says that a
    /// check failed, the message, and under a heading each the suggested fix
    /// and the page to read.
    pub open spec fn parts(self) -> Seq<TextPartView> {
        seq![
            part(Emphasis::Alert, "Pre-notarization check failed:"@),
            part(Emphasis::Plain, "\n"@ + self.message + "\n\n"@),
            part(Emphasis::Heading, "Suggested fix:"@),
            part(Emphasis::Plain, "\n   "@ + self.solution + "\n\n"@),
            part(Emphasis::Heading, "See also:"@),
            part(Emphasis::Plain, "\n   "@ + self.reference_url()),
        ]
    }

    /// The text shown for this failure.
    pub open spec fn rendered(self) -> Seq<char> {
        "Pre-notarization check failed:"@ + "\n"@ + self.message + "\n\n"@ + "Suggested fix:"@
            + "\n   "@ + self.solution + "\n\n"@ + "See also:"@ + "\n   "@
            + self.reference_url()
    }
}

/// The parts of a failure make up its rendered text.
pub proof fn lemma_precheck_error_parts(error: PrecheckErrorView)
    ensures
        joined(error.parts()) == error.rendered(),
{
    let parts = error.parts();
    let five = parts.drop_last();
    let four = five.drop_last();
    let three = four.drop_last();
    let two = three.drop_last();
    let one = two.drop_last();
    let none = one.drop_last();
    assert(none =~= Seq::<TextPartView>::empty());
    assert(joined(none) =~= Seq::<char>::empty());
    assert(joined(one) =~= parts[0].text);
    assert(joined(two) =~= parts[0].text + parts[1].text);
    assert(joined(three) =~= parts[0].text + parts[1].text + parts[2].text);
    assert(joined(four) =~= parts[0].text + parts[1].text + parts[2].text + parts[3].text);
    assert(joined(five) =~= parts[0].text + parts[1].text + parts[2].text + parts[3].text
        + parts[4].text);
    assert(joined(parts) =~= error.rendered());
}

impl Clone for PrecheckError {
    fn clone(&self) -> (copy: Self)
        ensures
            copy@ == self@,
    {
        PrecheckError {
            message: self.message.clone(),
            solution: self.solution.clone(),
            see_also: match &self.see_also {
                Some(url) => Some(url.clone()),
                None => None,
            },
        }
    }
}

impl PrecheckError {
    /// A failure that points to the general help page.
    pub fn new(message: &str, solution: &str) -> (error: Self)
        requires
            message@.len() > 0,
            solution@.len() > 0,
        ensures
            error@ == (PrecheckErrorView { message: message@, solution: solution@, see_also: None }),
            error@.wf(),
    {
        PrecheckError { message: message.to_owned(), solution: solution.to_owned(), see_also: None }
    }

    /// A failure that points to a page of its own.
    pub fn new_with_url(message: &str, solution: &str, see_also: &str) -> (error: Self)
        requires
            message@.len() > 0,
            solution@.len() > 0,
        ensures
            error@ == (PrecheckErrorView {
                message: message@,
                solution: solution@,
                see_also: Some(see_also@),
            }),
            error@.wf(),
    {
        PrecheckError {
            message: message.to_owned(),
            solution: solution.to_owned(),
            see_also: Some(see_also.to_owned()),
        }
    }

    /// The page the user is sent to: the failure's own, or the general one.
    pub fn reference_url(&self) -> (url: String)
        ensures
            url@ == self@.reference_url(),
    {
        match &self.see_also {
            Some(url) => url.clone(),
            None => DEFAULT_HELP_URL.to_owned(),
        }
    }

    /// The text shown for this failure, in parts that say what is to stand
    /// out. Put together, the parts are the rendered text.
    pub fn parts(&self) -> (parts: Vec<TextPart>)
        ensures
            parts.deep_view() == self@.parts(),
            joined(parts.deep_view()) == self@.rendered(),
    {
        let url = self.reference_url();
        let mut parts: Vec<TextPart> = Vec::new();
        parts.push(make_part(Emphasis::Alert, "Pre-notarization check failed:".to_owned()));
        parts.push(
            make_part(
                Emphasis::Plain,
                "\n".to_owned().concat(self.message.as_str()).concat("\n\n"),
            ),
        );
        parts.push(make_part(Emphasis::Heading, "Suggested fix:".to_owned()));
        parts.push(
            make_part(
                Emphasis::Plain,
                "\n   ".to_owned().concat(self.solution.as_str()).concat("\n\n"),
            ),
        );
        parts.push(make_part(Emphasis::Heading, "See also:".to_owned()));
        parts.push(make_part(Emphasis::Plain, "\n   ".to_owned().concat(url.as_str())));
        proof {
            assert(parts.deep_view() =~= self@.parts());
            lemma_precheck_error_parts(self@);
        }
        parts
    }

    /// The text shown for this failure, without any styling.
    pub fn render(&self) -> (text: String)
        ensures
            text@ == self@.rendered(),
    {
        let parts = self.parts();
        join_parts(&parts)
    }
}

/// What a check found.
#[derive(Debug, Clone)]
pub enum Status {
    Pass,
    Fail { message: String, solution: String, see_also: Option<String> },
}

/// `Status` as a mathematical value: its strings are sequences of characters.
pub enum StatusView {
    Pass,
    Fail(PrecheckErrorView),
}

impl View for Status {
    type V = StatusView;

    open spec fn view(&self) -> StatusView {
        match self {
            Status::Pass => StatusView::Pass,
            Status::Fail { message, solution, see_also } => StatusView::Fail(
                PrecheckErrorView {
                    message: message@,
                    solution: solution@,
                    see_also: see_also.deep_view(),
                },
            ),
        }
    }
}

impl StatusView {
    /// A failure always says what is wrong and how to mend it.
    pub open spec fn wf(self) -> bool {
        match self {
            StatusView::Pass => true,
            StatusView::Fail(failure) => failure.wf(),
        }
    }
}

impl Status {
    /// The finding that a requirement is not met.
    pub fn fail_with(message: &str, solution: &str, see_also: Option<String>) -> (status: Self)
        requires
            message@.len() > 0,
            solution@.len() > 0,
        ensures
            status@ == StatusView::Fail(
                PrecheckErrorView {
                    message: message@,
                    solution: solution@,
                    see_also: see_also.deep_view(),
                },
            ),
            status@.wf(),
    {
        Status::Fail { message: message.to_owned(), solution: solution.to_owned(), see_also }
    }

    /// The error that this finding amounts to: none for a pass.
    pub fn to_err(self) -> (error: Option<PrecheckError>)
        ensures
            match self@ {
                StatusView::Pass => error is None,
                StatusView::Fail(failure) => error is Some && error->0@ == failure,
            },
    {
        match self {
            Status::Pass => None,
            Status::Fail { message, solution, see_also } => Some(
                PrecheckError { message, solution, see_also },
            ),
        }
    }

    /// Whether the requirement is met.
    pub fn is_pass(&self) -> (pass: bool)
        ensures
            pass == (self@ is Pass),
    {
        match self {
            Status::Pass => true,
            Status::Fail { .. } => false,
        }
    }

    /// Whether the requirement is not met.
    pub fn is_fail(&self) -> (fail: bool)
        ensures
            fail == (self@ is Fail),
    {
        !self.is_pass()
    }
}

} // verus!
