//! Turning a record into one line of text. The `LogFormat` trait is the
//! injection point for a host-supplied formatter; `DefaultFormat` renders
//! `<timestamp> <LEVEL> [<target>] <message>\n` with the timestamp written
//! by the time library.

use crate::record::{Level, Record};
use vstd::prelude::*;
use vstd::string::StringExecFns;

verus! {

/// The text the time library renders for a Unix timestamp under the
/// description `[year]-[month]-[day] [hour]:[minute]:[second] UTC `;
/// a function of the timestamp alone.
pub uninterp spec fn timestamp_text_of(epoch_secs: int) -> Seq<char>;

/// The latest Unix timestamp the time library's date range covers
/// (9999-12-31 23:59:59 UTC).
pub const MAX_FORMATTED_TIMESTAMP: u64 = 253402300799;

/// Relies on the time crate: `OffsetDateTime::from_unix_timestamp` followed by
/// `format` with the description `[year]-[month]-[day] [hour]:[minute]:[second] UTC `.
/// The result depends on the timestamp alone; timestamps within the library's
/// date range (up to year 9999) always format.
#[verifier::external_body]
fn format_timestamp(epoch_secs: u64) -> (r: Option<String>)
    ensures
        r matches Option::Some(t) ==> t@ == timestamp_text_of(epoch_secs as int),
        epoch_secs <= MAX_FORMATTED_TIMESTAMP ==> r is Some,
{
    let description = time::format_description::parse(
        "[year]-[month]-[day] [hour]:[minute]:[second] UTC ",
    ).ok()?;
    let moment = time::OffsetDateTime::from_unix_timestamp(i64::try_from(epoch_secs).ok()?).ok()?;
    moment.format(&description).ok()
}

/// The fallback written when the timestamp lies outside the formattable range.
pub open spec fn fallback_stamp() -> Seq<char> {
    "????-??-?? ??:??:?? UTC "@
}

/// The default line for a record, given the text standing for its timestamp.
pub open spec fn line_text(stamp: Seq<char>, level: Level, target: Seq<char>, message: Seq<char>) -> Seq<char> {
    stamp + level.spec_text() + " ["@ + target + "] "@ + message + "\n"@
}

/// Renders the default line for a record: the formatted timestamp (or the
/// fallback, for timestamps past year 9999), the padded level, the target in
/// brackets, and the message, ending in a newline.
pub fn default_format_line(record: &Record) -> (r: String)
    ensures
        record.timestamp <= MAX_FORMATTED_TIMESTAMP ==> r@ == line_text(
            timestamp_text_of(record.timestamp as int),
            record.level,
            record.target@,
            record.message@,
        ),
        r@ == line_text(
            timestamp_text_of(record.timestamp as int),
            record.level,
            record.target@,
            record.message@,
        ) || r@ == line_text(fallback_stamp(), record.level, record.target@, record.message@),
{
    let mut out = match format_timestamp(record.timestamp) {
        Option::Some(t) => t,
        Option::None => {
            let mut f = String::new();
            f.append("????-??-?? ??:??:?? UTC ");
            proof {
                assert(f@ =~= fallback_stamp());
            }
            f
        },
    };
    let ghost stamp = out@;
    out.append(record.level.text());
    out.append(" [");
    out.append(record.target.as_str());
    out.append("] ");
    out.append(record.message.as_str());
    out.append("\n");
    proof {
        assert(out@ =~= line_text(stamp, record.level, record.target@, record.message@));
    }
    out
}

/// Turns a record into one line of text. The host may supply its own
/// implementation through the builder; nothing is assumed about the text an
/// implementation returns.
pub trait LogFormat {
    fn format(&self, record: &Record) -> String;
}

/// The formatter used when the host supplies none.
#[derive(Clone, Copy)]
pub struct DefaultFormat;

impl LogFormat for DefaultFormat {
    fn format(&self, record: &Record) -> String {
        default_format_line(record)
    }
}

} // verus!
