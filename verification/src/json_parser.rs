//! Parse one JSON line of runner output into a typed test event.
//!
//! Each line is expected to be a JSON object with a `"type"` field that is
//! either `"suite"` (never reported as an event) or `"test"`. A test object
//! carries an `"event"` kind string, a `"name"`, and optionally
//! `"exec_time"`, `"stdout"` and `"stderr"`. A fixed set of kind strings maps
//! to event variants; any other kind yields no event, so that newer runners
//! with new kinds do not abort the stream. Structurally invalid lines yield a
//! [`ParseError`] instead.
use vstd::prelude::*;

verus! {

/// One typed event of the test runner, the unit handed from the parser to
/// the encoder. The name is non-empty for every variant; the duration is the
/// runner-reported seconds kept as the JSON number's text, carried through
/// but never encoded into the output protocol.
#[derive(Debug, Clone, PartialEq)]
pub enum TestEvent {
    /// A test has started.
    Started { name: String },
    /// A test passed.
    Passed { name: String, duration: Option<String> },
    /// A test failed, possibly with captured output.
    Failed {
        name: String,
        duration: Option<String>,
        stdout: Option<String>,
        stderr: Option<String>,
    },
    /// A test was ignored/skipped.
    Ignored { name: String },
    /// A test timed out.
    Timeout { name: String, duration: Option<String> },
}

/// The mathematical image of a [`TestEvent`]: the same shape over sequences
/// of characters.
pub enum EventModel {
    Started { name: Seq<char> },
    Passed { name: Seq<char>, duration: Option<Seq<char>> },
    Failed {
        name: Seq<char>,
        duration: Option<Seq<char>>,
        stdout: Option<Seq<char>>,
        stderr: Option<Seq<char>>,
    },
    Ignored { name: Seq<char> },
    Timeout { name: Seq<char>, duration: Option<Seq<char>> },
}

impl View for TestEvent {
    type V = EventModel;

    open spec fn view(&self) -> EventModel {
        match self {
            TestEvent::Started { name } => EventModel::Started { name: name@ },
            TestEvent::Passed { name, duration } => EventModel::Passed {
                name: name@,
                duration: duration.deep_view(),
            },
            TestEvent::Failed { name, duration, stdout, stderr } => EventModel::Failed {
                name: name@,
                duration: duration.deep_view(),
                stdout: stdout.deep_view(),
                stderr: stderr.deep_view(),
            },
            TestEvent::Ignored { name } => EventModel::Ignored { name: name@ },
            TestEvent::Timeout { name, duration } => EventModel::Timeout {
                name: name@,
                duration: duration.deep_view(),
            },
        }
    }
}

/// A line that is not a well-formed event object: not a JSON object at all,
/// an unknown or ill-typed `"type"`, a required field missing or of the
/// wrong type, or an empty test name. Distinct from the empty result, which
/// stands for a well-formed line that carries no reportable event.
#[derive(Debug, Clone, Copy, PartialEq, Eq, Structural)]
pub struct ParseError;

/// Whether the line parses as a JSON object.
pub uninterp spec fn json_obj_ok(line: Seq<char>) -> bool;

/// Whether the object in the line has the key with a non-null value.
pub uninterp spec fn json_has(line: Seq<char>, key: Seq<char>) -> bool;

/// The string value at the key of the object in the line, if the line is an
/// object, the key is present and its value is a JSON string.
pub uninterp spec fn json_field_str(line: Seq<char>, key: Seq<char>) -> Option<Seq<char>>;

/// The text of the JSON number at the key of the object in the line, if the
/// line is an object, the key is present and its value is a number.
pub uninterp spec fn json_field_num(line: Seq<char>, key: Seq<char>) -> Option<Seq<char>>;

/// The value at the key of the object in the line, if the line is an object,
/// the key is present and its value is a non-negative integer.
pub uninterp spec fn json_field_uint(line: Seq<char>, key: Seq<char>) -> Option<u64>;

/// Relies on serde_json::from_str and Value::is_object: whether the line is
/// a JSON object.
#[verifier::external_body]
fn is_json_object(line: &str) -> (r: bool)
    ensures
        r == json_obj_ok(line@),
{
    match serde_json::from_str::<serde_json::Value>(line) {
        Ok(v) => v.is_object(),
        Err(_) => false,
    }
}

/// Relies on serde_json's Value::get and Value::is_null: whether the object
/// in the line has the key with a non-null value.
#[verifier::external_body]
fn json_field_present(line: &str, key: &str) -> (r: bool)
    ensures
        r == json_has(line@, key@),
{
    match serde_json::from_str::<serde_json::Value>(line) {
        Ok(v) => match v.get(key) {
            Some(x) => !x.is_null(),
            None => false,
        },
        Err(_) => false,
    }
}

/// Relies on serde_json's Value::get and Value::as_str: the string value at
/// the key of the object in the line.
#[verifier::external_body]
fn json_string_field(line: &str, key: &str) -> (r: Option<String>)
    ensures
        r.deep_view() == json_field_str(line@, key@),
{
    serde_json::from_str::<serde_json::Value>(line)
        .ok()
        .and_then(|v| v.get(key).and_then(|x| x.as_str()).map(|s| s.to_string()))
}

/// Relies on serde_json's Value::get and Value::as_number: the text of the
/// JSON number at the key of the object in the line.
#[verifier::external_body]
fn json_number_field(line: &str, key: &str) -> (r: Option<String>)
    ensures
        r.deep_view() == json_field_num(line@, key@),
{
    serde_json::from_str::<serde_json::Value>(line)
        .ok()
        .and_then(|v| v.get(key).and_then(|x| x.as_number()).map(|n| n.to_string()))
}

/// Relies on serde_json's Value::get and Value::as_u64: the non-negative
/// integer at the key of the object in the line.
#[verifier::external_body]
fn json_uint_field(line: &str, key: &str) -> (r: Option<u64>)
    ensures
        r == json_field_uint(line@, key@),
{
    serde_json::from_str::<serde_json::Value>(line)
        .ok()
        .and_then(|v| v.get(key).and_then(|x| x.as_u64()))
}

/// Whether a `"suite"` line is well-formed: its `"event"` is a string and
/// its `"test_count"`, when present, is a non-negative integer.
pub open spec fn suite_fields_ok(l: Seq<char>) -> bool {
    &&& json_field_str(l, "event"@) is Some
    &&& (json_has(l, "test_count"@) ==> json_field_uint(l, "test_count"@) is Some)
}

/// Whether a `"test"` line is well-formed: `"event"` and `"name"` are
/// strings, and each optional field present has the type it must have.
pub open spec fn test_fields_ok(l: Seq<char>) -> bool {
    &&& json_field_str(l, "event"@) is Some
    &&& json_field_str(l, "name"@) is Some
    &&& (json_has(l, "exec_time"@) ==> json_field_num(l, "exec_time"@) is Some)
    &&& (json_has(l, "stdout"@) ==> json_field_str(l, "stdout"@) is Some)
    &&& (json_has(l, "stderr"@) ==> json_field_str(l, "stderr"@) is Some)
}

/// The event of a well-formed `"test"` line: the five known kind strings map
/// to the five variants, every other kind maps to no event. An empty name is
/// rejected for the known kinds, since every event carries a non-empty name.
pub open spec fn spec_parse_test(l: Seq<char>) -> Result<Option<EventModel>, ()>
    recommends
        test_fields_ok(l),
{
    let kind = json_field_str(l, "event"@)->0;
    let name = json_field_str(l, "name"@)->0;
    let duration = json_field_num(l, "exec_time"@);
    if kind == "started"@ || kind == "ok"@ || kind == "failed"@ || kind == "ignored"@ || kind
        == "timeout"@ {
        if name.len() == 0 {
            Err(())
        } else if kind == "started"@ {
            Ok(Some(EventModel::Started { name }))
        } else if kind == "ok"@ {
            Ok(Some(EventModel::Passed { name, duration }))
        } else if kind == "failed"@ {
            Ok(
                Some(
                    EventModel::Failed {
                        name,
                        duration,
                        stdout: json_field_str(l, "stdout"@),
                        stderr: json_field_str(l, "stderr"@),
                    },
                ),
            )
        } else if kind == "ignored"@ {
            Ok(Some(EventModel::Ignored { name }))
        } else {
            Ok(Some(EventModel::Timeout { name, duration }))
        }
    } else {
        Ok(None)
    }
}

/// What `parse_event` returns on each line: an error unless the line is a
/// JSON object tagged `"suite"` or `"test"` with well-formed fields; no
/// event for a suite line or an unknown test kind; otherwise the typed event.
pub open spec fn spec_parse(l: Seq<char>) -> Result<Option<EventModel>, ()> {
    if !json_obj_ok(l) {
        Err(())
    } else if json_field_str(l, "type"@) == Some("suite"@) {
        if suite_fields_ok(l) {
            Ok(None)
        } else {
            Err(())
        }
    } else if json_field_str(l, "type"@) == Some("test"@) {
        if test_fields_ok(l) {
            spec_parse_test(l)
        } else {
            Err(())
        }
    } else {
        Err(())
    }
}

/// The image of an exec parse result in the model.
pub open spec fn parse_view(r: Result<Option<TestEvent>, ParseError>) -> Result<
    Option<EventModel>,
    (),
> {
    match r {
        Ok(Some(e)) => Ok(Some(e@)),
        Ok(None) => Ok(None),
        Err(_) => Err(()),
    }
}

/// Law: a well-formed test line whose kind is one of the five known kind
/// strings, with a non-empty name, parses to the matching variant with
/// every provided field carried over verbatim.
pub proof fn lemma_parse_known_kinds(l: Seq<char>)
    requires
        json_obj_ok(l),
        json_field_str(l, "type"@) == Some("test"@),
        test_fields_ok(l),
        json_field_str(l, "name"@)->0.len() > 0,
    ensures
        json_field_str(l, "event"@) == Some("started"@) ==> spec_parse(l) == Ok::<_, ()>(
            Some(EventModel::Started { name: json_field_str(l, "name"@)->0 }),
        ),
        json_field_str(l, "event"@) == Some("ok"@) ==> spec_parse(l) == Ok::<_, ()>(
            Some(
                EventModel::Passed {
                    name: json_field_str(l, "name"@)->0,
                    duration: json_field_num(l, "exec_time"@),
                },
            ),
        ),
        json_field_str(l, "event"@) == Some("failed"@) ==> spec_parse(l) == Ok::<_, ()>(
            Some(
                EventModel::Failed {
                    name: json_field_str(l, "name"@)->0,
                    duration: json_field_num(l, "exec_time"@),
                    stdout: json_field_str(l, "stdout"@),
                    stderr: json_field_str(l, "stderr"@),
                },
            ),
        ),
        json_field_str(l, "event"@) == Some("ignored"@) ==> spec_parse(l) == Ok::<_, ()>(
            Some(EventModel::Ignored { name: json_field_str(l, "name"@)->0 }),
        ),
        json_field_str(l, "event"@) == Some("timeout"@) ==> spec_parse(l) == Ok::<_, ()>(
            Some(
                EventModel::Timeout {
                    name: json_field_str(l, "name"@)->0,
                    duration: json_field_num(l, "exec_time"@),
                },
            ),
        ),
{
    lemma_kind_literals_distinct();
}

/// The known literals told apart: the kind strings differ pairwise, and the
/// two type tags differ.
proof fn lemma_kind_literals_distinct()
    ensures
        "suite"@ != "test"@,
        "started"@ != "ok"@,
        "started"@ != "failed"@,
        "started"@ != "ignored"@,
        "started"@ != "timeout"@,
        "ok"@ != "failed"@,
        "ok"@ != "ignored"@,
        "ok"@ != "timeout"@,
        "failed"@ != "ignored"@,
        "failed"@ != "timeout"@,
        "ignored"@ != "timeout"@,
{
    reveal_strlit("suite");
    reveal_strlit("test");
    reveal_strlit("started");
    reveal_strlit("ok");
    reveal_strlit("failed");
    reveal_strlit("ignored");
    reveal_strlit("timeout");
    assert("suite"@.len() == 5);
    assert("test"@.len() == 4);
    assert("started"@.len() == 7);
    assert("ok"@.len() == 2);
    assert("failed"@.len() == 6);
    assert("ignored"@.len() == 7);
    assert("timeout"@.len() == 7);
    assert("started"@[0] != "ignored"@[0]);
    assert("started"@[0] != "timeout"@[0]);
    assert("ignored"@[0] != "timeout"@[0]);
}

/// Law: a well-formed suite line yields no event and no error.
pub proof fn lemma_parse_suite_line(l: Seq<char>)
    requires
        json_obj_ok(l),
        json_field_str(l, "type"@) == Some("suite"@),
        suite_fields_ok(l),
    ensures
        spec_parse(l) == Ok::<Option<EventModel>, ()>(None),
{
}

/// Law: a well-formed test line with an unrecognized kind string yields no
/// event and no error, so that newer runners do not abort the stream.
pub proof fn lemma_parse_unknown_kind(l: Seq<char>)
    requires
        json_obj_ok(l),
        json_field_str(l, "type"@) == Some("test"@),
        test_fields_ok(l),
        json_field_str(l, "event"@)->0 != "started"@,
        json_field_str(l, "event"@)->0 != "ok"@,
        json_field_str(l, "event"@)->0 != "failed"@,
        json_field_str(l, "event"@)->0 != "ignored"@,
        json_field_str(l, "event"@)->0 != "timeout"@,
    ensures
        spec_parse(l) == Ok::<Option<EventModel>, ()>(None),
{
    lemma_kind_literals_distinct();
}

/// Law: structurally invalid input yields the error value, distinct from
/// the empty result: a line that is no JSON object, one whose type tag is
/// missing or unknown, and one with a missing or ill-typed required field
/// all produce an error, never an event.
pub proof fn lemma_parse_invalid(l: Seq<char>)
    ensures
        !json_obj_ok(l) ==> spec_parse(l) == Err::<Option<EventModel>, ()>(()),
        json_obj_ok(l) && !(json_field_str(l, "type"@) == Some("suite"@)) && !(json_field_str(
            l,
            "type"@,
        ) == Some("test"@)) ==> spec_parse(l) == Err::<Option<EventModel>, ()>(()),
        json_obj_ok(l) && json_field_str(l, "type"@) == Some("test"@) && !test_fields_ok(l)
            ==> spec_parse(l) == Err::<Option<EventModel>, ()>(()),
        json_obj_ok(l) && json_field_str(l, "type"@) == Some("suite"@) && !suite_fields_ok(l)
            ==> spec_parse(l) == Err::<Option<EventModel>, ()>(()),
{
    lemma_kind_literals_distinct();
}

/// Character-wise string equality.
fn str_eq(a: &str, b: &str) -> (r: bool)
    ensures
        r == (a@ == b@),
{
    let alen = a.unicode_len();
    let blen = b.unicode_len();
    if alen != blen {
        assert(a@ != b@) by {
            assert(a@.len() != b@.len());
        }
        return false;
    }
    let mut i: usize = 0;
    while i < alen
        invariant
            i <= alen,
            alen == a@.len(),
            alen == b@.len(),
            forall|j: int| 0 <= j < i ==> a@[j] == b@[j],
        decreases alen - i,
    {
        if a.get_char(i) != b.get_char(i) {
            return false;
        }
        i += 1;
    }
    proof {
        assert(a@ =~= b@);
    }
    true
}

/// Parse one line of runner output.
///
/// Returns the typed event of a well-formed `"test"` line with a known kind,
/// no event for a `"suite"` line or an unknown kind, and a [`ParseError`]
/// for a structurally invalid line; the caller is meant to log the error and
/// continue with the next line, never to abort the stream.
pub fn parse_event(line: &str) -> (r: Result<Option<TestEvent>, ParseError>)
    ensures
        parse_view(r) == spec_parse(line@),
{
    if !is_json_object(line) {
        return Err(ParseError);
    }
    let ty = json_string_field(line, "type");
    match ty {
        Some(ty) => {
            if str_eq(ty.as_str(), "suite") {
                parse_suite(line)
            } else if str_eq(ty.as_str(), "test") {
                parse_test(line)
            } else {
                Err(ParseError)
            }
        },
        None => Err(ParseError),
    }
}

/// Check a `"suite"` line; such a line never yields an event.
fn parse_suite(line: &str) -> (r: Result<Option<TestEvent>, ParseError>)
    requires
        json_obj_ok(line@),
        json_field_str(line@, "type"@) == Some("suite"@),
    ensures
        parse_view(r) == spec_parse(line@),
{
    if json_string_field(line, "event").is_none() {
        return Err(ParseError);
    }
    if json_field_present(line, "test_count") && json_uint_field(line, "test_count").is_none() {
        return Err(ParseError);
    }
    Ok(None)
}

/// Check a `"test"` line and map its kind string to an event.
fn parse_test(line: &str) -> (r: Result<Option<TestEvent>, ParseError>)
    requires
        json_obj_ok(line@),
        json_field_str(line@, "type"@) == Some("test"@),
    ensures
        parse_view(r) == spec_parse(line@),
{
    proof {
        reveal_strlit("suite");
        reveal_strlit("test");
        assert("suite"@.len() != "test"@.len());
    }
    let kind = match json_string_field(line, "event") {
        Some(k) => k,
        None => {
            return Err(ParseError);
        },
    };
    let name = match json_string_field(line, "name") {
        Some(n) => n,
        None => {
            return Err(ParseError);
        },
    };
    let duration = json_number_field(line, "exec_time");
    if json_field_present(line, "exec_time") && duration.is_none() {
        return Err(ParseError);
    }
    let stdout = json_string_field(line, "stdout");
    if json_field_present(line, "stdout") && stdout.is_none() {
        return Err(ParseError);
    }
    let stderr = json_string_field(line, "stderr");
    if json_field_present(line, "stderr") && stderr.is_none() {
        return Err(ParseError);
    }
    let known = str_eq(kind.as_str(), "started") || str_eq(kind.as_str(), "ok") || str_eq(
        kind.as_str(),
        "failed",
    ) || str_eq(kind.as_str(), "ignored") || str_eq(kind.as_str(), "timeout");
    if !known {
        return Ok(None);
    }
    if name.as_str().unicode_len() == 0 {
        return Err(ParseError);
    }
    if str_eq(kind.as_str(), "started") {
        Ok(Some(TestEvent::Started { name }))
    } else if str_eq(kind.as_str(), "ok") {
        Ok(Some(TestEvent::Passed { name, duration }))
    } else if str_eq(kind.as_str(), "failed") {
        Ok(Some(TestEvent::Failed { name, duration, stdout, stderr }))
    } else if str_eq(kind.as_str(), "ignored") {
        Ok(Some(TestEvent::Ignored { name }))
    } else {
        Ok(Some(TestEvent::Timeout { name, duration }))
    }
}

} // verus!
