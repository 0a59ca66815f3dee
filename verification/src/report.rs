//! The one-line diagnostics that the poller sends: what a sensor answer
//! looks like as text.
//!
//! A line is a label, a value and a line end. The calibrated temperature is
//! a fraction of a degree, which this crate does not compute with: the
//! firmware hands it over already written out. The raw count is an integer
//! and is written out here, in decimal.

use vstd::prelude::*;
use vstd::string::*;
use crate::serial::{frame_safe, wire_byte};

verus! {

/// Which of the two sensor queries is meant.
#[derive(Clone, Copy, Debug, PartialEq, Eq, Structural)]
pub enum Query {
    /// The temperature in degrees.
    Calibrated,
    /// The unscaled count of the temperature register.
    Raw,
}

/// A value that the sensor returned.
#[derive(Debug)]
pub enum Measurement {
    /// A temperature in degrees, as the firmware wrote it out.
    Degrees(String),
    /// An unscaled register count.
    Counts(i16),
}

/// Label of a calibrated temperature: `Temp: `.
pub open spec fn calibrated_label() -> Seq<char> {
    seq!['T', 'e', 'm', 'p', ':', ' ']
}

/// Label of a raw count: `Raw Temp: `.
pub open spec fn raw_label() -> Seq<char> {
    seq!['R', 'a', 'w', ' ', 'T', 'e', 'm', 'p', ':', ' ']
}

/// Label of a failed query: `Error: `.
pub open spec fn fault_label() -> Seq<char> {
    seq!['E', 'r', 'r', 'o', 'r', ':', ' ']
}

/// End of every line: carriage return, line feed.
pub open spec fn line_end() -> Seq<char> {
    seq!['\r', '\n']
}

/// Label that goes with a successful answer to `query`.
pub open spec fn label(query: Query) -> Seq<char> {
    match query {
        Query::Calibrated => calibrated_label(),
        Query::Raw => raw_label(),
    }
}

/// The character of a decimal digit.
pub open spec fn digit(d: nat) -> char
    recommends
        d < 10,
{
    ('0' as nat + d) as char
}

/// A natural number in decimal, without leading zeros.
pub open spec fn decimal(n: nat) -> Seq<char>
    decreases n,
{
    if n < 10 {
        seq![digit(n)]
    } else {
        decimal(n / 10).push(digit(n % 10))
    }
}

/// An integer in decimal, with a minus sign if it is negative.
pub open spec fn signed_decimal(v: int) -> Seq<char> {
    if v < 0 {
        seq!['-'] + decimal((-v) as nat)
    } else {
        decimal(v as nat)
    }
}

/// A measurement as text.
pub open spec fn value_text(value: Measurement) -> Seq<char> {
    match value {
        Measurement::Degrees(text) => text@,
        Measurement::Counts(count) => signed_decimal(count as int),
    }
}

/// The line that reports the answer to `query`: label, value and line end
/// for a measurement; the fault label, the driver's details and line end for
/// a failure, whichever query it was.
pub open spec fn line_text(query: Query, outcome: Result<Measurement, String>) -> Seq<char> {
    match outcome {
        Ok(value) => label(query) + value_text(value) + line_end(),
        Err(details) => fault_label() + details@ + line_end(),
    }
}

fn digit_text(d: u32) -> (text: &'static str)
    requires
        d < 10,
    ensures
        text@ == seq![digit(d as nat)],
{
    proof {
        reveal_strlit("0");
        reveal_strlit("1");
        reveal_strlit("2");
        reveal_strlit("3");
        reveal_strlit("4");
        reveal_strlit("5");
        reveal_strlit("6");
        reveal_strlit("7");
        reveal_strlit("8");
        reveal_strlit("9");
    }
    let text: &'static str = match d {
        0 => "0",
        1 => "1",
        2 => "2",
        3 => "3",
        4 => "4",
        5 => "5",
        6 => "6",
        7 => "7",
        8 => "8",
        _ => "9",
    };
    assert(text@ =~= seq![digit(d as nat)]);
    text
}

fn push_decimal(out: &mut String, n: u32)
    ensures
        final(out)@ == old(out)@ + decimal(n as nat),
    decreases n,
{
    if n >= 10 {
        push_decimal(out, n / 10);
    }
    out.append(digit_text(n % 10));
    assert(out@ =~= old(out)@ + decimal(n as nat));
}

/// Writes a raw count out in decimal.
pub fn render_counts(count: i16) -> (text: String)
    ensures
        text@ == signed_decimal(count as int),
{
    let mut text: String = String::new();
    let wide: i32 = count as i32;
    if wide < 0 {
        proof {
            reveal_strlit("-");
        }
        text.append("-");
        push_decimal(&mut text, (-wide) as u32);
    } else {
        push_decimal(&mut text, wide as u32);
    }
    assert(text@ =~= signed_decimal(count as int));
    text
}

/// The label that goes with a successful answer to `query`.
pub fn label_text(query: Query) -> (text: &'static str)
    ensures
        text@ == label(query),
{
    proof {
        reveal_strlit("Temp: ");
        reveal_strlit("Raw Temp: ");
    }
    let text: &'static str = match query {
        Query::Calibrated => "Temp: ",
        Query::Raw => "Raw Temp: ",
    };
    assert(text@ =~= label(query));
    text
}

/// Writes the line that reports the answer to `query`.
///
/// A measurement gives the query's label, the value and the line end. A
/// failure gives `Error: `, the driver's details and the line end, for
/// either query.
pub fn report_line(query: Query, outcome: &Result<Measurement, String>) -> (line: String)
    ensures
        line@ == line_text(query, *outcome),
{
    let mut line: String = String::new();
    match outcome {
        Ok(Measurement::Degrees(text)) => {
            line.append(label_text(query));
            line.append(text.as_str());
        },
        Ok(Measurement::Counts(count)) => {
            line.append(label_text(query));
            let text: String = render_counts(*count);
            line.append(text.as_str());
        },
        Err(details) => {
            proof {
                reveal_strlit("Error: ");
            }
            line.append("Error: ");
            assert("Error: "@ =~= fault_label());
            line.append(details.as_str());
        },
    }
    proof {
        reveal_strlit("\r\n");
    }
    line.append("\r\n");
    assert("\r\n"@ =~= line_end());
    assert(line@ =~= line_text(query, *outcome));
    line
}

/// A number written out in decimal is frame safe: it consists of digits and
/// at most a sign.
pub proof fn lemma_decimal_is_frame_safe(n: nat)
    ensures
        frame_safe(decimal(n)),
        decimal(n).len() > 0,
        forall|i: int| 0 <= i < decimal(n).len() ==> '0' <= #[trigger] decimal(n)[i] <= '9',
    decreases n,
{
    if n >= 10 {
        lemma_decimal_is_frame_safe(n / 10);
    }
}

/// A line holds the frame delimiter only if the firmware put it there: the
/// line for a raw count is always frame safe, and the line for a temperature
/// in degrees or for a failure is frame safe whenever the text that the
/// firmware handed over is.
pub proof fn lemma_line_is_frame_safe(query: Query, outcome: Result<Measurement, String>)
    requires
        outcome matches Ok(Measurement::Degrees(text)) ==> frame_safe(text@),
        outcome matches Err(details) ==> frame_safe(details@),
    ensures
        frame_safe(line_text(query, outcome)),
{
    assert(frame_safe(calibrated_label()));
    assert(frame_safe(raw_label()));
    assert(frame_safe(fault_label()));
    assert(frame_safe(line_end()));
    match outcome {
        Ok(Measurement::Counts(count)) => {
            if count < 0 {
                lemma_decimal_is_frame_safe((-count) as nat);
            } else {
                lemma_decimal_is_frame_safe(count as nat);
            }
            assert(frame_safe(signed_decimal(count as int)));
        },
        _ => {},
    }
}

} // verus!
