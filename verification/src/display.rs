//! How the terminal UI writes statuses and times.
use vstd::prelude::*;
use crate::version::is_digit;
use crate::naming::{lowercase_text, plain_lowercase, to_lowercase};
use crate::text::{chars_of, owned};

verus! {

/// What std's `char::to_uppercase` gives for a character (Unicode uppercase mapping, one or
/// more characters).
pub uninterp spec fn uppercase_text(c: char) -> Seq<char>;

/// std's `char::to_uppercase`, collected into a string; named `uppercase_text` of the
/// character, which is never empty (the mapping yields one or more characters).
#[verifier::external_body]
fn char_to_uppercase(c: char) -> (r: String)
    ensures
        r@ == uppercase_text(c),
        r@.len() > 0,
{
    c.to_uppercase().collect::<String>()
}

/// The label of a status: a known status by its lowercase text, any other text with its first
/// character in upper case.
pub open spec fn status_label(status: Seq<char>) -> Seq<char> {
    let l = lowercase_text(status);
    if l == "queued"@ {
        "Queued"@
    } else if l == "resolving"@ {
        "Resolving"@
    } else if l == "start_pending"@ {
        "Start Pending"@
    } else if l == "running"@ {
        "Running"@
    } else if l == "succeeded"@ {
        "Succeeded"@
    } else if l == "failed"@ {
        "Failed"@
    } else if l == "aborted"@ {
        "Aborted"@
    } else if l == "unpacking_sfs"@ {
        "Unpacking SFS"@
    } else if l == "packing_sfs"@ {
        "Packing SFS"@
    } else if l == "waiting_for_event"@ {
        "Waiting..."@
    } else if l == "failed_ignored"@ {
        "Failed (Ignored)"@
    } else if status.len() == 0 {
        Seq::empty()
    } else {
        uppercase_text(status[0]) + status.drop_first()
    }
}

/// The lowercase texts of the statuses the label table knows.
pub open spec fn known_status(l: Seq<char>) -> bool {
    l == "queued"@ || l == "resolving"@ || l == "start_pending"@ || l == "running"@ || l == "succeeded"@
        || l == "failed"@ || l == "aborted"@ || l == "unpacking_sfs"@ || l == "packing_sfs"@ || l
        == "waiting_for_event"@ || l == "failed_ignored"@
}

proof fn lemma_known_status_plain(l: Seq<char>)
    requires
        known_status(l),
    ensures
        plain_lowercase(l),
        l.len() > 0,
{
    reveal_strlit("queued");
    reveal_strlit("resolving");
    reveal_strlit("start_pending");
    reveal_strlit("running");
    reveal_strlit("succeeded");
    reveal_strlit("failed");
    reveal_strlit("aborted");
    reveal_strlit("unpacking_sfs");
    reveal_strlit("packing_sfs");
    reveal_strlit("waiting_for_event");
    reveal_strlit("failed_ignored");
}

/// Writes a status for display, as `status_label` says. The table lookup ignores case: a
/// status whose lowercase text the table knows gets the label of that lowercase text, and
/// an empty status stays empty.
pub fn format_status(status: &str) -> (r: String)
    ensures
        r@ == status_label(status@),
        known_status(lowercase_text(status@)) ==> status_label(lowercase_text(status@)) == status_label(status@),
        status@.len() == 0 ==> r@.len() == 0,
{
    let l = to_lowercase(status);
    proof {
        if known_status(l@) {
            lemma_known_status_plain(l@);
        }
    }
    assert(l@.len() == 0 ==> !known_status(l@));
    if l == owned("queued") {
        owned("Queued")
    } else if l == owned("resolving") {
        owned("Resolving")
    } else if l == owned("start_pending") {
        owned("Start Pending")
    } else if l == owned("running") {
        owned("Running")
    } else if l == owned("succeeded") {
        owned("Succeeded")
    } else if l == owned("failed") {
        owned("Failed")
    } else if l == owned("aborted") {
        owned("Aborted")
    } else if l == owned("unpacking_sfs") {
        owned("Unpacking SFS")
    } else if l == owned("packing_sfs") {
        owned("Packing SFS")
    } else if l == owned("waiting_for_event") {
        owned("Waiting...")
    } else if l == owned("failed_ignored") {
        owned("Failed (Ignored)")
    } else {
        let cs = chars_of(status);
        if cs.len() == 0 {
            String::new()
        } else {
            let head = char_to_uppercase(cs[0]);
            let tail = crate::text::substring(&cs, 1, cs.len());
            assert(cs@.subrange(1, cs@.len() as int) =~= status@.drop_first());
            head.concat(tail.as_str())
        }
    }
}

/// chrono's reading of a text as an RFC 3339 time (`DateTime::parse_from_rfc3339`), as
/// nanoseconds since the epoch (`timestamp_nanos_opt`, `None` for a time outside the `i64`
/// range); `None` when chrono refuses the text.
pub uninterp spec fn rfc3339_nanos(ts: Seq<char>) -> Option<Option<i64>>;

/// The format in which times are shown.
pub open spec fn display_format() -> Seq<char> {
    "%Y-%m-%d %H:%M:%S"@
}

/// All characters of `s` are ASCII digits.
pub open spec fn all_digits(s: Seq<char>) -> bool {
    forall|i: int| 0 <= i < s.len() ==> is_digit(#[trigger] s[i])
}

/// A year as chrono's `%Y` writes it: four digits, or a sign and at least four digits for a
/// year outside 0 to 9999.
pub open spec fn year_shape(y: Seq<char>) -> bool {
    ||| y.len() == 4 && all_digits(y)
    ||| y.len() >= 5 && (y[0] == '+' || y[0] == '-') && all_digits(y.drop_first())
}

/// A text as chrono writes `%Y-%m-%d %H:%M:%S`: a year, then `-MM-DD HH:MM:SS` with
/// two-digit fields.
pub open spec fn local_time_shape(t: Seq<char>) -> bool {
    let n = t.len() as int;
    &&& n >= 19
    &&& year_shape(t.take(n - 15))
    &&& {
        let r = t.skip(n - 15);
        &&& r[0] == '-' && is_digit(r[1]) && is_digit(r[2])
        &&& r[3] == '-' && is_digit(r[4]) && is_digit(r[5])
        &&& r[6] == ' ' && is_digit(r[7]) && is_digit(r[8])
        &&& r[9] == ':' && is_digit(r[10]) && is_digit(r[11])
        &&& r[12] == ':' && is_digit(r[13]) && is_digit(r[14])
    }
}

/// chrono's `DateTime::parse_from_rfc3339`: the time as nanoseconds since the epoch when an
/// `i64` holds them (`timestamp_nanos_opt`; named `rfc3339_nanos`), and the time in the machine's local time zone written with `format`,
/// the display format (`with_timezone(&Local)` then `format`). Which text that is depends on
/// the zone, so it is not named; it has the shape `local_time_shape` describes.
#[verifier::external_body]
pub(crate) fn read_rfc3339(ts: &str, format: &str) -> (r: Option<(Option<i64>, String)>)
    requires
        format@ == display_format(),
    ensures
        match rfc3339_nanos(ts@) {
            Some(ns) => r matches Some((n, t)) && n == ns && local_time_shape(t@),
            None => r is None,
        },
{
    let dt = chrono::DateTime::parse_from_rfc3339(ts).ok()?;
    Some((dt.timestamp_nanos_opt(), dt.with_timezone(&chrono::Local).format(format).to_string()))
}

/// Writes a time for display: in local time when it is an RFC 3339 time, as it is otherwise.
pub fn format_time_str(ts: &str) -> (r: String)
    ensures
        rfc3339_nanos(ts@) is None ==> r@ == ts@,
        rfc3339_nanos(ts@) is Some ==> local_time_shape(r@),
{
    let fmt = "%Y-%m-%d %H:%M:%S";
    proof {
        reveal_strlit("%Y-%m-%d %H:%M:%S");
    }
    match read_rfc3339(ts, fmt) {
        Some((_, t)) => t,
        None => owned(ts),
    }
}

} // verus!
