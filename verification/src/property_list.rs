//! Property lists as the flat stream of events that the `plist` crate reads
//! them into, and the lookups that the typed documents are built from.

use vstd::prelude::*;
use vstd::string::*;
use crate::text::{least, lemma_least_holds, lemma_least_is};

verus! {

/// One event of a property list. A dictionary is a `StartDictionary`, then
/// each key followed by its value, then an `EndCollection`.
#[derive(Debug, Clone)]
pub enum PlistEvent {
    StartArray,
    StartDictionary,
    EndCollection,
    Boolean(bool),
    Text(String),
    /// Data, a date, a number or a uid: values that no document here reads.
    Scalar,
}

/// `PlistEvent` as a mathematical value: its strings are sequences of characters.
pub enum PlistEventView {
    StartArray,
    StartDictionary,
    EndCollection,
    Boolean(bool),
    Text(Seq<char>),
    Scalar,
}

impl View for PlistEvent {
    type V = PlistEventView;

    open spec fn view(&self) -> PlistEventView {
        match self {
            PlistEvent::StartArray => PlistEventView::StartArray,
            PlistEvent::StartDictionary => PlistEventView::StartDictionary,
            PlistEvent::EndCollection => PlistEventView::EndCollection,
            PlistEvent::Boolean(value) => PlistEventView::Boolean(*value),
            PlistEvent::Text(text) => PlistEventView::Text(text@),
            PlistEvent::Scalar => PlistEventView::Scalar,
        }
    }
}

impl DeepView for PlistEvent {
    type V = PlistEventView;

    open spec fn deep_view(&self) -> PlistEventView {
        self@
    }
}

pub const LESS_THAN: u8 = 0x3c;

pub const GREATER_THAN: u8 = 0x3e;

pub const COLON: u8 = 0x3a;

pub const SLASH: u8 = 0x2f;

pub const AMPERSAND: u8 = 0x26;

pub const NINE: u8 = 0x39;

/// An XML element named `date` may start at `at`: the four bytes of `date`
/// stand there, straight after a `<` or a `:`. Every element whose local
/// name is `date` starts so; not everything that starts so is one.
pub open spec fn date_may_start(bytes: Seq<u8>, at: int) -> bool {
    &&& 1 <= at
    &&& at + 4 <= bytes.len()
    &&& bytes[at] == 0x64
    &&& bytes[at + 1] == 0x61
    &&& bytes[at + 2] == 0x74
    &&& bytes[at + 3] == 0x65
    &&& bytes[at - 1] == LESS_THAN || bytes[at - 1] == COLON
}

/// Where the text that starts at `from` ends: at the next `<`, or at the
/// end of the bytes.
pub open spec fn text_end(bytes: Seq<u8>, from: int) -> int {
    match least(|e: int| from <= e && (e >= bytes.len() || bytes[e] == LESS_THAN)) {
        Some(e) => e,
        None => bytes.len() as int,
    }
}

/// Four nines in a row stand at `at`.
pub open spec fn four_nines(bytes: Seq<u8>, at: int) -> bool {
    &&& 0 <= at
    &&& at + 4 <= bytes.len()
    &&& bytes[at] == NINE
    &&& bytes[at + 1] == NINE
    &&& bytes[at + 2] == NINE
    &&& bytes[at + 3] == NINE
}

/// The date that may start at `at` is written plainly and does not lie in the
/// year 9999: its tag is closed at once, its text runs up to a closing tag
/// or to the end of the bytes, and the text holds no `&` and no four nines
/// in a row.
pub open spec fn date_is_plain(bytes: Seq<u8>, at: int) -> bool {
    let from = at + 5;
    let end = text_end(bytes, from);
    &&& from <= bytes.len()
    &&& bytes[at + 4] == GREATER_THAN
    &&& forall|j: int| from <= j < end ==> bytes[j] != AMPERSAND
    &&& forall|j: int| from <= j && j + 4 <= end ==> !four_nines(bytes, j)
    &&& end == bytes.len() || (end + 1 < bytes.len() && bytes[end + 1] == SLASH)
}

/// No date in these bytes can lie in the year 9999: wherever an element
/// named `date` may start, the date is written plainly and in another year.
/// A date of the year 9999 is the one that the reader cannot take: moved to
/// universal time it may leave the range of years that the reader knows.
pub open spec fn dates_are_plain(bytes: Seq<u8>) -> bool {
    forall|at: int| date_may_start(bytes, at) ==> date_is_plain(bytes, at)
}

/// The events that `plist::stream::Reader` yields for these bytes, or `None`
/// where it reports an error before the end of the stream.
pub uninterp spec fn plist_events(bytes: Seq<u8>) -> Option<Seq<PlistEventView>>;

/// The events that are read from these bytes: those that the reader yields,
/// and none for bytes that are not handed to it.
pub open spec fn readable_events(bytes: Seq<u8>) -> Option<Seq<PlistEventView>> {
    if dates_are_plain(bytes) {
        plist_events(bytes)
    } else {
        None
    }
}

/// Runs `plist::stream::Reader` over the bytes, whatever their encoding, and
/// hands out the events it yields, each as an event of this module: the
/// collection markers, booleans and strings as they are, every other value
/// as `Scalar`. The result is `None` where the reader yields an error.
///
/// The call is made only on bytes in which no date can lie in the year 9999.
/// The reader moves every XML date to universal time and panics where the
/// year then exceeds 9999, which only a date of the year 9999 can bring
/// about. It takes a date from an element whose local name is `date`, that is
/// from the text between the end of the start tag and the closing tag, with
/// character references resolved and comments passed over; `dates_are_plain`
/// leaves out all bytes in which such a text could hold the year. Nothing
/// is proved of the reader: the contract only names what it returns.
#[verifier::external_body]
pub(crate) fn read_events(bytes: &[u8]) -> (events: Option<Vec<PlistEvent>>)
    requires
        dates_are_plain(bytes@),
    ensures
        events.deep_view() == plist_events(bytes@),
{
    let mut events = Vec::new();
    for event in plist::stream::Reader::new(std::io::Cursor::new(bytes)) {
        events.push(match event {
            Ok(plist::stream::Event::StartArray(_)) => PlistEvent::StartArray,
            Ok(plist::stream::Event::StartDictionary(_)) => PlistEvent::StartDictionary,
            Ok(plist::stream::Event::EndCollection) => PlistEvent::EndCollection,
            Ok(plist::stream::Event::Boolean(value)) => PlistEvent::Boolean(value),
            Ok(plist::stream::Event::String(text)) => PlistEvent::Text(text.into_owned()),
            Ok(_) => PlistEvent::Scalar,
            Err(_) => return None,
        });
    }
    Some(events)
}

/// Whether an element named `date` may start at `at`.
fn may_start_date(bytes: &[u8], at: usize) -> (may: bool)
    ensures
        may == date_may_start(bytes@, at as int),
{
    if at < 1 || bytes.len() < 4 || at > bytes.len() - 4 {
        return false;
    }
    bytes[at] == 0x64 && bytes[at + 1] == 0x61 && bytes[at + 2] == 0x74 && bytes[at + 3] == 0x65
        && (bytes[at - 1] == LESS_THAN || bytes[at - 1] == COLON)
}

/// Whether the date that may start at `at` is written plainly and does not
/// lie in the year 9999.
fn is_plain_date(bytes: &[u8], at: usize) -> (plain: bool)
    requires
        date_may_start(bytes@, at as int),
    ensures
        plain == date_is_plain(bytes@, at as int),
{
    let n = bytes.len();
    if at + 4 >= n || bytes[at + 4] != GREATER_THAN {
        return false;
    }
    let from = at + 5;
    let ghost p = |e: int| from <= e && (e >= bytes@.len() || bytes@[e] == LESS_THAN);
    let mut end: usize = from;
    while end < n && bytes[end] != LESS_THAN
        invariant
            from <= end <= n,
            n == bytes.len(),
            from == at + 5,
            forall|j: int| from <= j < end ==> bytes@[j] != LESS_THAN && bytes@[j] != AMPERSAND,
        decreases n - end,
    {
        if bytes[end] == AMPERSAND {
            proof {
                lemma_text_end(bytes@, from as int);
                let e = text_end(bytes@, from as int);
                if e <= end {
                    assert(bytes@[e] == LESS_THAN);
                }
                assert(from <= end < e && bytes@[end as int] == AMPERSAND);
            }
            return false;
        }
        end += 1;
    }
    proof {
        assert(p(end as int));
        assert forall|j: int| 0 <= j < end implies !#[trigger] p(j) by {}
        lemma_least_is(p, end as int);
        assert(text_end(bytes@, from as int) == end);
    }
    let mut j: usize = from;
    while end - j >= 4
        invariant
            from <= j <= end <= n,
            n == bytes.len(),
            from == at + 5,
            bytes@[at + 4] == GREATER_THAN,
            text_end(bytes@, from as int) == end,
            forall|k: int| from <= k < end ==> bytes@[k] != AMPERSAND,
            forall|k: int| from <= k < j ==> !four_nines(bytes@, k),
        decreases end - j,
    {
        if bytes[j] == NINE && bytes[j + 1] == NINE && bytes[j + 2] == NINE && bytes[j + 3]
            == NINE {
            assert(four_nines(bytes@, j as int) && j + 4 <= end);
            return false;
        }
        j += 1;
    }
    end == n || (end + 1 < n && bytes[end + 1] == SLASH)
}

/// The end of a text is a `<` or the end of the bytes, and no `<` stands
/// before it.
pub proof fn lemma_text_end(bytes: Seq<u8>, from: int)
    requires
        0 <= from <= bytes.len(),
    ensures
        from <= text_end(bytes, from) <= bytes.len(),
        text_end(bytes, from) < bytes.len() ==> bytes[text_end(bytes, from)] == LESS_THAN,
        forall|j: int| from <= j < text_end(bytes, from) ==> bytes[j] != LESS_THAN,
    decreases bytes.len() - from,
{
    let p = |e: int| from <= e && (e >= bytes.len() || bytes[e] == LESS_THAN);
    if from == bytes.len() || bytes[from] == LESS_THAN {
        assert(p(from));
        assert forall|j: int| 0 <= j < from implies !#[trigger] p(j) by {}
        lemma_least_is(p, from);
    } else {
        lemma_text_end(bytes, from + 1);
        let e = text_end(bytes, from + 1);
        let q = |e: int| from + 1 <= e && (e >= bytes.len() || bytes[e] == LESS_THAN);
        assert(p(e)) by {
            if least(q) is Some {
                lemma_least_holds(q);
            }
        }
        assert forall|j: int| 0 <= j < e implies !#[trigger] p(j) by {}
        lemma_least_is(p, e);
    }
}

/// Whether no date in these bytes can lie in the year 9999.
pub fn plain_dates(bytes: &[u8]) -> (plain: bool)
    ensures
        plain == dates_are_plain(bytes@),
{
    let n = bytes.len();
    if n < 4 {
        return true;
    }
    let mut at: usize = 1;
    while at <= n - 4
        invariant
            1 <= at,
            n == bytes.len(),
            n >= 4,
            forall|k: int| k < at && date_may_start(bytes@, k) ==> date_is_plain(bytes@, k),
        decreases n - at,
    {
        if may_start_date(bytes, at) && !is_plain_date(bytes, at) {
            return false;
        }
        at += 1;
    }
    true
}

/// Reads these bytes as a property list, whatever their encoding: the
/// events that the reader yields, and none for bytes that are not handed to
/// it because a date in them could lie in the year 9999.
pub fn events_of(bytes: &[u8]) -> (events: Option<Vec<PlistEvent>>)
    ensures
        events.deep_view() == readable_events(bytes@),
{
    if plain_dates(bytes) {
        read_events(bytes)
    } else {
        None
    }
}

/// Where the collections that are open at `at` are all closed: the index
/// after the `EndCollection` that closes the outermost of `depth` of them.
pub open spec fn closes(events: Seq<PlistEventView>, at: int, depth: nat) -> Option<int>
    decreases events.len() - at,
{
    if at < 0 || at >= events.len() {
        None
    } else {
        match events[at] {
            PlistEventView::StartArray | PlistEventView::StartDictionary => closes(
                events,
                at + 1,
                depth + 1,
            ),
            PlistEventView::EndCollection => if depth <= 1 {
                Some(at + 1)
            } else {
                closes(events, at + 1, (depth - 1) as nat)
            },
            _ => closes(events, at + 1, depth),
        }
    }
}

/// The index after the value that starts at `at`: a single event, or a
/// collection up to the event that closes it.
pub open spec fn value_end(events: Seq<PlistEventView>, at: int) -> Option<int> {
    if at < 0 || at >= events.len() {
        None
    } else {
        match events[at] {
            PlistEventView::StartArray | PlistEventView::StartDictionary => closes(
                events,
                at + 1,
                1,
            ),
            PlistEventView::EndCollection => None,
            _ => Some(at + 1),
        }
    }
}

/// The entry for `key` in the dictionary whose first key stands at `at`:
/// `None` where the dictionary is malformed from there on or holds the key
/// more than once, `Some(None)` where it lacks the key, else the index of the
/// key's value.
pub open spec fn entry(events: Seq<PlistEventView>, at: int, key: Seq<char>) -> Option<
    Option<int>,
>
    decreases events.len() - at,
{
    if at < 0 || at >= events.len() {
        None
    } else {
        match events[at] {
            PlistEventView::EndCollection => Some(None),
            PlistEventView::Text(name) => match value_end(events, at + 1) {
                Some(next) => if at < next <= events.len() {
                    let rest = entry(events, next, key);
                    if name != key {
                        rest
                    } else if rest == Some(None::<int>) {
                        Some(Some(at + 1))
                    } else {
                        None
                    }
                } else {
                    None
                },
                None => None,
            },
            _ => None,
        }
    }
}

/// The stream is one dictionary and nothing after it.
pub open spec fn is_document(events: Seq<PlistEventView>) -> bool {
    &&& events.len() > 0
    &&& events[0] is StartDictionary
    &&& value_end(events, 0) == Some(events.len() as int)
}

/// The string that is the value at `at`.
pub open spec fn text_at(events: Seq<PlistEventView>, at: int) -> Option<Seq<char>> {
    if 0 <= at < events.len() {
        match events[at] {
            PlistEventView::Text(text) => Some(text),
            _ => None,
        }
    } else {
        None
    }
}

/// The boolean that is the value at `at`.
pub open spec fn flag_at(events: Seq<PlistEventView>, at: int) -> Option<bool> {
    if 0 <= at < events.len() {
        match events[at] {
            PlistEventView::Boolean(value) => Some(value),
            _ => None,
        }
    } else {
        None
    }
}

/// The string under `key`, which the dictionary at `body` must hold once.
pub open spec fn required_text(events: Seq<PlistEventView>, body: int, key: Seq<char>) -> Option<
    Seq<char>,
> {
    match entry(events, body, key) {
        Some(Some(at)) => text_at(events, at),
        _ => None,
    }
}

/// The string under `key`, which the dictionary at `body` may lack: `None`
/// where the dictionary is malformed or the value is no string.
pub open spec fn optional_text(events: Seq<PlistEventView>, body: int, key: Seq<char>) -> Option<
    Option<Seq<char>>,
> {
    match entry(events, body, key) {
        Some(Some(at)) => match text_at(events, at) {
            Some(text) => Some(Some(text)),
            None => None,
        },
        Some(None) => Some(None),
        None => None,
    }
}

/// The boolean under `key`, which the dictionary at `body` may lack.
pub open spec fn optional_flag(events: Seq<PlistEventView>, body: int, key: Seq<char>) -> Option<
    Option<bool>,
> {
    match entry(events, body, key) {
        Some(Some(at)) => match flag_at(events, at) {
            Some(value) => Some(Some(value)),
            None => None,
        },
        Some(None) => Some(None),
        None => None,
    }
}

/// The first key of the dictionary under `key`, which the dictionary at
/// `body` must hold once.
pub open spec fn required_dictionary(
    events: Seq<PlistEventView>,
    body: int,
    key: Seq<char>,
) -> Option<int> {
    match entry(events, body, key) {
        Some(Some(at)) => if 0 <= at < events.len() && events[at] is StartDictionary {
            Some(at + 1)
        } else {
            None
        },
        _ => None,
    }
}

/// The index after the value that starts at `at`.
pub fn skip_value(events: &[PlistEvent], at: usize) -> (end: Option<usize>)
    ensures
        match value_end(events.deep_view(), at as int) {
            Some(e) => end == Some(e as usize) && at < e <= events.len(),
            None => end is None,
        },
{
    let ghost ev = events.deep_view();
    if at >= events.len() {
        return None;
    }
    match &events[at] {
        PlistEvent::StartArray | PlistEvent::StartDictionary => {},
        PlistEvent::EndCollection => {
            return None;
        },
        _ => {
            return Some(at + 1);
        },
    }
    let mut i: usize = at + 1;
    let mut depth: usize = 1;
    while i < events.len()
        invariant
            ev == events.deep_view(),
            at < i <= events.len(),
            1 <= depth <= i - at,
            value_end(ev, at as int) == closes(ev, i as int, depth as nat),
        decreases events.len() - i,
    {
        match &events[i] {
            PlistEvent::StartArray | PlistEvent::StartDictionary => {
                depth += 1;
            },
            PlistEvent::EndCollection => {
                if depth == 1 {
                    return Some(i + 1);
                }
                depth -= 1;
            },
            _ => {},
        }
        i += 1;
    }
    None
}

/// The entry for `key` in the dictionary whose first key stands at `at`.
pub fn find_entry(events: &[PlistEvent], at: usize, key: &str) -> (found: Option<Option<usize>>)
    ensures
        match entry(events.deep_view(), at as int, key@) {
            Some(Some(i)) => found == Some(Some(i as usize)) && 0 < i < events.len(),
            Some(None) => found == Some(None::<usize>),
            None => found is None,
        },
{
    let ghost ev = events.deep_view();
    if at >= events.len() {
        return None;
    }
    let mut i: usize = at;
    let mut seen: Option<usize> = None;
    while i < events.len()
        invariant
            ev == events.deep_view(),
            at <= i <= events.len(),
            seen matches Some(v) ==> 0 < v < events.len(),
            entry(ev, at as int, key@) == match seen {
                None => entry(ev, i as int, key@),
                Some(v) => if entry(ev, i as int, key@) == Some(None::<int>) {
                    Some(Some(v as int))
                } else {
                    None
                },
            },
        decreases events.len() - i,
    {
        match &events[i] {
            PlistEvent::EndCollection => {
                return match seen {
                    Some(v) => Some(Some(v)),
                    None => Some(None),
                };
            },
            PlistEvent::Text(name) => {
                match skip_value(events, i + 1) {
                    Some(next) => {
                        if crate::text::str_eq(name.as_str(), key) {
                            if seen.is_some() {
                                return None;
                            }
                            seen = Some(i + 1);
                        }
                        i = next;
                    },
                    None => {
                        return None;
                    },
                }
            },
            _ => {
                return None;
            },
        }
    }
    None
}

/// Whether the stream is one dictionary and nothing after it.
pub fn check_document(events: &[PlistEvent]) -> (ok: bool)
    ensures
        ok == is_document(events.deep_view()),
{
    if events.len() == 0 {
        return false;
    }
    match &events[0] {
        PlistEvent::StartDictionary => {},
        _ => {
            return false;
        },
    }
    match skip_value(events, 0) {
        Some(end) => end == events.len(),
        None => false,
    }
}

/// The string under `key`, which the dictionary at `body` must hold once.
pub fn read_required_text(events: &[PlistEvent], body: usize, key: &str) -> (text: Option<String>)
    ensures
        text.deep_view() == required_text(events.deep_view(), body as int, key@),
{
    match find_entry(events, body, key) {
        Some(Some(at)) => match &events[at] {
            PlistEvent::Text(text) => Some(text.clone()),
            _ => None,
        },
        _ => None,
    }
}

/// The string under `key`, which the dictionary at `body` may lack.
pub fn read_optional_text(events: &[PlistEvent], body: usize, key: &str) -> (text: Option<
    Option<String>,
>)
    ensures
        text.deep_view() == optional_text(events.deep_view(), body as int, key@),
{
    match find_entry(events, body, key) {
        Some(Some(at)) => match &events[at] {
            PlistEvent::Text(text) => Some(Some(text.clone())),
            _ => None,
        },
        Some(None) => Some(None),
        None => None,
    }
}

/// The boolean under `key`, which the dictionary at `body` may lack.
pub fn read_optional_flag(events: &[PlistEvent], body: usize, key: &str) -> (flag: Option<
    Option<bool>,
>)
    ensures
        flag == optional_flag(events.deep_view(), body as int, key@),
{
    match find_entry(events, body, key) {
        Some(Some(at)) => match &events[at] {
            PlistEvent::Boolean(value) => Some(Some(*value)),
            _ => None,
        },
        Some(None) => Some(None),
        None => None,
    }
}

/// The first key of the dictionary under `key`, which the dictionary at
/// `body` must hold once.
pub fn read_required_dictionary(events: &[PlistEvent], body: usize, key: &str) -> (inner: Option<
    usize,
>)
    ensures
        match required_dictionary(events.deep_view(), body as int, key@) {
            Some(i) => inner == Some(i as usize) && 0 < i <= events.len(),
            None => inner is None,
        },
{
    match find_entry(events, body, key) {
        Some(Some(at)) => match &events[at] {
            PlistEvent::StartDictionary => Some(at + 1),
            _ => None,
        },
        _ => None,
    }
}

} // verus!
