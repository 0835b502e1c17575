//! The cached TCB report: from its bytes to the time of its next update.

use vstd::prelude::*;
use vstd::string::StringExecFns;
use vstd::utf8::{decode_utf8, valid_utf8};

verus! {

/// `serde_json::Value`, a JSON document or a part of one. It is carried as
/// it is; what it holds is known by `json_members` alone.
#[verifier::external_type_specification]
#[verifier::external_body]
pub struct ExJsonValue(serde_json::Value);

/// `chrono::NaiveDateTime`, a date and a time of day as a clock shows them.
/// It is carried as it is; nothing of what it holds is known.
#[verifier::external_type_specification]
#[verifier::external_body]
pub struct ExNaiveDateTime(chrono::NaiveDateTime);

/// The time at which a probe is made: the same moment as read in UTC and as
/// read on the clocks of the place.
#[derive(Debug)]
pub struct Now {
    pub utc: chrono::NaiveDateTime,
    pub local: chrono::NaiveDateTime,
}

/// The members of a document, by the path of object keys that leads to each.
/// A member that is a string has its text, any other has none. The empty
/// path leads to the document itself.
pub type Members = Map<Seq<Seq<char>>, Option<Seq<char>>>;

/// What `String::from_utf8` says of bytes that are no UTF-8.
pub uninterp spec fn utf8_error(bytes: Seq<u8>) -> Seq<char>;

/// What `serde_json::from_str` makes of a text: the members of the document,
/// or what the parser says of a text that is no JSON.
pub uninterp spec fn json_parsed(text: Seq<char>) -> Result<Members, Seq<char>>;

/// The members of a JSON value.
pub uninterp spec fn json_members(value: serde_json::Value) -> Members;

/// What `chrono::DateTime::parse_from_rfc3339` makes of a text: how the time
/// parsed prints, or what the parser says of a text that is no time in that
/// form.
pub uninterp spec fn rfc3339_parsed(text: Seq<char>) -> Result<Seq<char>, Seq<char>>;

/// The members of the member under `key`: those whose path starts with
/// `key`, by the rest of the path.
pub open spec fn members_under(members: Members, key: Seq<char>) -> Members {
    Map::new(
        |path: Seq<Seq<char>>| members.dom().contains(seq![key] + path),
        |path: Seq<Seq<char>>| members[seq![key] + path],
    )
}

/// What is read of a time of next update, as of a given time: how it prints,
/// whether it has passed, and the time since, in whole days, hours, minutes
/// and seconds, each the whole of the time since and not a part of it.
#[derive(Clone, Debug, PartialEq, Eq)]
pub struct NextUpdate {
    pub text: String,
    pub passed: bool,
    pub days: i64,
    pub hours: i64,
    pub minutes: i64,
    pub seconds: i64,
}

/// What is read of a time of next update, with the text by its characters.
pub ghost struct NextUpdateView {
    pub text: Seq<char>,
    pub passed: bool,
    pub days: int,
    pub hours: int,
    pub minutes: int,
    pub seconds: int,
}

impl View for NextUpdate {
    type V = NextUpdateView;

    open spec fn view(&self) -> NextUpdateView {
        NextUpdateView {
            text: self.text@,
            passed: self.passed,
            days: self.days as int,
            hours: self.hours as int,
            minutes: self.minutes as int,
            seconds: self.seconds as int,
        }
    }
}

/// Calls `String::from_utf8`. The contract claims that the call succeeds on
/// valid UTF-8 and on nothing else, that the text is the one the bytes
/// encode, and that the error prints as the same text for the same bytes.
#[verifier::external_body]
fn string_from_utf8(bytes: Vec<u8>) -> (decoded: Result<String, String>)
    ensures
        decoded is Ok <==> valid_utf8(bytes@),
        decoded matches Ok(text) ==> text@ == decode_utf8(bytes@),
        decoded matches Err(message) ==> message@ == utf8_error(bytes@),
{
    match String::from_utf8(bytes) {
        Ok(text) => Ok(text),
        Err(error) => Err(error.to_string()),
    }
}

/// Calls `serde_json::from_str` for a `serde_json::Value`. The contract
/// claims that the outcome depends on the text alone.
#[verifier::external_body]
fn json_from_str(text: &str) -> (parsed: Result<serde_json::Value, String>)
    ensures
        parsed matches Ok(value) ==> (json_parsed(text@) matches Ok(members) && members
            == json_members(value)),
        parsed matches Err(message) ==> (json_parsed(text@) matches Err(said) && said
            == message@),
{
    match serde_json::from_str::<serde_json::Value>(text) {
        Ok(value) => Ok(value),
        Err(error) => Err(error.to_string()),
    }
}

/// Calls `serde_json::Value::get` with a string. The contract claims that a
/// member is found where the value is an object that holds the key, and
/// that the members of the member found are those of the value under the
/// key.
#[verifier::external_body]
fn json_get<'a>(value: &'a serde_json::Value, key: &str) -> (member: Option<&'a serde_json::Value>)
    ensures
        member is Some <==> json_members(*value).dom().contains(seq![key@]),
        member matches Some(found) ==> json_members(*found) == members_under(
            json_members(*value),
            key@,
        ),
{
    value.get(key)
}

/// Calls `serde_json::Value::as_str`. The contract claims that the text is
/// returned where the value is a string, and nothing where it is not.
#[verifier::external_body]
fn json_as_str<'a>(value: &'a serde_json::Value) -> (text: Option<&'a str>)
    ensures
        text matches Some(text) ==> json_members(*value)[Seq::empty()] == Some(text@),
        text is None ==> json_members(*value)[Seq::empty()] is None,
{
    value.as_str()
}

/// A time as it was parsed from a text: the moment in UTC, the same moment
/// as read on clocks set to the offset that the text names, and how the time
/// prints.
struct ParsedTime {
    utc: chrono::NaiveDateTime,
    local: chrono::NaiveDateTime,
    text: String,
}

/// The time from one reading of a clock to another, in whole days, hours,
/// minutes and seconds, each the whole of the time and not a part of it.
struct Elapsed {
    days: i64,
    hours: i64,
    minutes: i64,
    seconds: i64,
}

/// Calls `chrono::DateTime::parse_from_rfc3339`, and hands out of the time
/// parsed its `naive_utc`, its `naive_local` and its `to_string`. The
/// contract claims that whether the text parses, how the time prints where
/// it does, and what the parser says where it does not, depend on the text
/// alone.
#[verifier::external_body]
fn parse_rfc3339(text: &str) -> (parsed: Result<ParsedTime, String>)
    ensures
        parsed matches Ok(at) ==> rfc3339_parsed(text@) == texts(Ok(at.text)),
        parsed matches Err(message) ==> rfc3339_parsed(text@) == texts(Err(message)),
{
    match chrono::DateTime::parse_from_rfc3339(text) {
        Ok(at) => Ok(
            ParsedTime { utc: at.naive_utc(), local: at.naive_local(), text: at.to_string() },
        ),
        Err(error) => Err(error.to_string()),
    }
}

/// Compares two values of `chrono::NaiveDateTime` with `<`. The contract
/// claims nothing of the result.
#[verifier::external_body]
fn earlier(first: &chrono::NaiveDateTime, second: &chrono::NaiveDateTime) -> (before: bool) {
    first < second
}

/// Calls `chrono::NaiveDateTime::signed_duration_since`, and hands out of
/// the duration its `num_days`, `num_hours`, `num_minutes` and
/// `num_seconds`. The contract claims nothing of the result.
#[verifier::external_body]
fn elapsed_since(now: &chrono::NaiveDateTime, then: &chrono::NaiveDateTime) -> (since: Elapsed) {
    let since = now.signed_duration_since(*then);
    Elapsed {
        days: since.num_days(),
        hours: since.num_hours(),
        minutes: since.num_minutes(),
        seconds: since.num_seconds(),
    }
}

/// Reads a time of next update as of `now`, from its text in the form of
/// RFC 3339: whether it is earlier than `now`, and the time from it to
/// `now` as read on the clocks of either place. Of a text that is not in
/// the form, what the parser says.
pub fn read_next_update(text: &str, now: &Now) -> (read: Result<NextUpdate, String>)
    ensures
        read matches Ok(next) ==> rfc3339_parsed(text@) == texts(Ok(next.text)),
        read matches Err(message) ==> rfc3339_parsed(text@) == texts(Err(message)),
{
    match parse_rfc3339(text) {
        Ok(at) => {
            let passed = earlier(&at.utc, &now.utc);
            let since = elapsed_since(&now.local, &at.local);
            Ok(
                NextUpdate {
                    text: at.text,
                    passed,
                    days: since.days,
                    hours: since.hours,
                    minutes: since.minutes,
                    seconds: since.seconds,
                },
            )
        },
        Err(said) => Err(said),
    }
}

/// A text that was found, or the text that says why none was, by their
/// characters.
pub open spec fn texts(outcome: Result<String, String>) -> Result<Seq<char>, Seq<char>> {
    match outcome {
        Ok(text) => Ok(text@),
        Err(text) => Err(text@),
    }
}

/// What is said of a report without the member `tcbInfo`.
pub const NO_TCB_INFO: &'static str = "Unable to decode JSON TCB report, missing `tcbInfo` field";

/// What is said of a report without the member `nextUpdate` of `tcbInfo`.
pub const NO_NEXT_UPDATE: &'static str =
    "Unable to decode JSON TCB report, missing `tcbInfo.nextUpdate` field";

/// What is said of a report whose time of next update is no text.
pub const NEXT_UPDATE_NO_TEXT: &'static str =
    "Unable to decode JSON TCB report, unable to decode `tcbInfo.nextUpdate` field";

/// The path to the body of the report.
pub open spec fn tcb_info_path() -> Seq<Seq<char>> {
    seq!["tcbInfo"@]
}

/// The path to the time of the next update.
pub open spec fn next_update_path() -> Seq<Seq<char>> {
    seq!["tcbInfo"@, "nextUpdate"@]
}

/// The time of the next update as a document gives it: the text of the
/// member `nextUpdate` of the member `tcbInfo`. Where there is none, what is
/// wrong: the first of the two members that is missing, or that the time is
/// no text.
pub open spec fn next_update_member(members: Members) -> Result<Seq<char>, Seq<char>> {
    if !members.dom().contains(tcb_info_path()) {
        Err(NO_TCB_INFO@)
    } else if !members.dom().contains(next_update_path()) {
        Err(NO_NEXT_UPDATE@)
    } else {
        match members[next_update_path()] {
            Some(text) => Ok(text),
            None => Err(NEXT_UPDATE_NO_TEXT@),
        }
    }
}

/// The time of the next update as the bytes of a report give it. The bytes
/// are UTF-8, the text is JSON, and the document holds the time; where one
/// of these fails, the result says which, with what the decoder or the
/// parser said.
pub open spec fn next_update_field(bytes: Seq<u8>) -> Result<Seq<char>, Seq<char>> {
    if !valid_utf8(bytes) {
        Err("Unable to decode JSON TCB report: "@ + utf8_error(bytes))
    } else {
        match json_parsed(decode_utf8(bytes)) {
            Ok(members) => next_update_member(members),
            Err(said) => Err("Unable to decode JSON TCB report: "@ + said),
        }
    }
}

/// Looks up the time of the next update in a document.
pub fn next_update_in(document: &serde_json::Value) -> (found: Result<String, String>)
    ensures
        texts(found) == next_update_member(json_members(*document)),
{
    let info = match json_get(document, "tcbInfo") {
        Some(info) => info,
        None => {
            return Err(NO_TCB_INFO.to_owned());
        },
    };
    proof {
        assert(seq!["tcbInfo"@] + seq!["nextUpdate"@] =~= next_update_path());
        assert(seq!["nextUpdate"@] + Seq::<Seq<char>>::empty() =~= seq!["nextUpdate"@]);
    }
    let next = match json_get(info, "nextUpdate") {
        Some(next) => next,
        None => {
            return Err(NO_NEXT_UPDATE.to_owned());
        },
    };
    match json_as_str(next) {
        Some(text) => Ok(text.to_owned()),
        None => Err(NEXT_UPDATE_NO_TEXT.to_owned()),
    }
}

/// Reads the time of the next update from the bytes of a report.
pub fn next_update_of(bytes: Vec<u8>) -> (found: Result<String, String>)
    ensures
        texts(found) == next_update_field(bytes@),
{
    let text = match string_from_utf8(bytes) {
        Ok(text) => text,
        Err(said) => {
            return Err("Unable to decode JSON TCB report: ".to_owned().concat(said.as_str()));
        },
    };
    match json_from_str(text.as_str()) {
        Ok(document) => next_update_in(&document),
        Err(said) => Err("Unable to decode JSON TCB report: ".to_owned().concat(said.as_str())),
    }
}

} // verus!
