//! The lines that report how long the stages of an aggregation took.
//!
//! Nothing here writes to a log: each function hands the line to its
//! caller, who decides whether and where it is written.

use crate::kinds::GroupMetricsKind;
use std::time::{Duration, SystemTime, SystemTimeError};
use vstd::prelude::*;
use vstd::string::StringExecFns;

verus! {

/// A point in time as the system clock gives it. Nothing is known of what
/// a value holds.
#[verifier::external_type_specification]
#[verifier::external_body]
pub struct ExSystemTime(SystemTime);

/// The error of a clock that went backwards. Nothing is known of what a
/// value holds.
#[verifier::external_type_specification]
#[verifier::external_body]
pub struct ExSystemTimeError(SystemTimeError);

/// `SystemTime::now` reads the system clock: nothing is promised of the
/// time that it returns.
pub assume_specification[ SystemTime::now ]() -> (time: SystemTime)
;

/// `SystemTime::elapsed` compares a point in time with the system clock:
/// nothing is promised of the outcome.
pub assume_specification[ SystemTime::elapsed ](
    time: &SystemTime,
) -> (elapsed: Result<Duration, SystemTimeError>)
;

/// `Duration::as_micros` gives the whole microseconds of a duration. A
/// duration is opaque here, so nothing is stated of the number.
pub assume_specification[ Duration::as_micros ](duration: &Duration) -> (micros: u128)
;

/// The character that stands for a digit.
pub open spec fn digit_char(digit: nat) -> char {
    if digit == 0 {
        '0'
    } else if digit == 1 {
        '1'
    } else if digit == 2 {
        '2'
    } else if digit == 3 {
        '3'
    } else if digit == 4 {
        '4'
    } else if digit == 5 {
        '5'
    } else if digit == 6 {
        '6'
    } else if digit == 7 {
        '7'
    } else if digit == 8 {
        '8'
    } else {
        '9'
    }
}

/// A number written in decimal digits, without leading zeros.
pub open spec fn decimal(number: nat) -> Seq<char>
    decreases number,
{
    if number < 10 {
        seq![digit_char(number)]
    } else {
        decimal(number / 10).push(digit_char(number % 10))
    }
}

/// The name of a group kind as it stands in a line.
pub open spec fn kind_label(kind: GroupMetricsKind) -> Seq<char> {
    match kind {
        GroupMetricsKind::Producers => "Producers"@,
        GroupMetricsKind::Consumers => "Consumers"@,
        GroupMetricsKind::ProducingConsumers => "Producing Consumers"@,
        GroupMetricsKind::ProducersAndConsumers => "Producers and Consumers"@,
    }
}

/// The line that says how long a task took: the task, ` took `, and then
/// the microseconds and ` microsec`, or `unknown time` where the time could
/// not be measured.
pub open spec fn duration_line(task: Seq<char>, micros: Option<u128>) -> Seq<char> {
    match micros {
        Some(number) => task + " took "@ + decimal(number as nat) + " microsec"@,
        None => task + " took unknown time"@,
    }
}

/// The line that says when an event of the aggregation of a group took
/// place: the kind of the group, `: `, the event, ` @ `, and then the
/// microseconds and ` microsec`, or `unknown time` where the time could not
/// be measured.
pub open spec fn event_line(
    kind: GroupMetricsKind,
    event: Seq<char>,
    micros: Option<u128>,
) -> Seq<char> {
    match micros {
        Some(number) => kind_label(kind) + ": "@ + event + " @ "@ + decimal(number as nat)
            + " microsec"@,
        None => kind_label(kind) + ": "@ + event + " @ unknown time"@,
    }
}

/// The text of one digit.
fn digit_text(digit: u8) -> (text: &'static str)
    requires
        digit < 10,
    ensures
        text@ == seq![digit_char(digit as nat)],
{
    proof {
        reveal_strlit("0");
        reveal_strlit("1");
        reveal_strlit("2");
        reveal_strlit("3");
        reveal_strlit("4");
        reveal_strlit("5");
        reveal_strlit("6");
        reveal_strlit("7");
        reveal_strlit("8");
        reveal_strlit("9");
    }
    let text = if digit == 0 {
        "0"
    } else if digit == 1 {
        "1"
    } else if digit == 2 {
        "2"
    } else if digit == 3 {
        "3"
    } else if digit == 4 {
        "4"
    } else if digit == 5 {
        "5"
    } else if digit == 6 {
        "6"
    } else if digit == 7 {
        "7"
    } else if digit == 8 {
        "8"
    } else {
        "9"
    };
    assert(text@ =~= seq![digit_char(digit as nat)]);
    text
}

/// Writes a number in decimal digits.
pub fn to_decimal(number: u128) -> (text: String)
    ensures
        text@ == decimal(number as nat),
    decreases number,
{
    if number < 10 {
        String::from_str(digit_text(number as u8))
    } else {
        let mut text = to_decimal(number / 10);
        text.append(digit_text((number % 10) as u8));
        assert(text@ =~= decimal(number as nat));
        text
    }
}

/// The name of a group kind as it stands in a line.
pub fn label_of(kind: GroupMetricsKind) -> (label: &'static str)
    ensures
        label@ == kind_label(kind),
{
    match kind {
        GroupMetricsKind::Producers => "Producers",
        GroupMetricsKind::Consumers => "Consumers",
        GroupMetricsKind::ProducingConsumers => "Producing Consumers",
        GroupMetricsKind::ProducersAndConsumers => "Producers and Consumers",
    }
}

/// The line that says that `task` took `micros` microseconds, or an unknown
/// time where `micros` is `None`.
pub fn duration_message(task: &str, micros: Option<u128>) -> (line: String)
    ensures
        line@ == duration_line(task@, micros),
{
    let mut line = String::from_str(task);
    match micros {
        Some(number) => {
            line.append(" took ");
            line.append(to_decimal(number).as_str());
            line.append(" microsec");
        },
        None => {
            line.append(" took unknown time");
        },
    }
    line
}

/// The line that says that `event` of the aggregation of a group of kind
/// `kind` took place `micros` microseconds after the aggregation began, or
/// at an unknown time where `micros` is `None`.
pub fn event_message(kind: GroupMetricsKind, event: &str, micros: Option<u128>) -> (line: String)
    ensures
        line@ == event_line(kind, event@, micros),
{
    let mut line = String::from_str(label_of(kind));
    line.append(": ");
    line.append(event);
    match micros {
        Some(number) => {
            line.append(" @ ");
            line.append(to_decimal(number).as_str());
            line.append(" microsec");
        },
        None => {
            line.append(" @ unknown time");
        },
    }
    line
}

/// The microseconds that have passed since `time`, or `None` where the
/// clock has gone backwards since then.
fn micros_since(time: &SystemTime) -> (micros: Option<u128>) {
    micros_of(time.elapsed())
}

/// The microseconds of a measured time: those of the duration where the
/// clock could measure one, and `None` where it went backwards instead.
fn micros_of(elapsed: Result<Duration, SystemTimeError>) -> (micros: Option<u128>)
    ensures
        elapsed is Err <==> micros is None,
{
    match elapsed {
        Ok(duration) => Some(duration.as_micros()),
        Err(_) => None,
    }
}

/// Whether `line` says when `event` of the aggregation of a group of kind
/// `kind` took place, whatever the time was.
pub open spec fn is_event_line(line: Seq<char>, kind: GroupMetricsKind, event: Seq<char>) -> bool {
    exists|micros: Option<u128>| line == #[trigger] event_line(kind, event, micros)
}

/// Whether `line` says how long `task` took, whatever the time was.
pub open spec fn is_duration_line(line: Seq<char>, task: Seq<char>) -> bool {
    exists|micros: Option<u128>| line == #[trigger] duration_line(task, micros)
}

/// Reports when an event of the aggregation of a group took place: the
/// line of [`event_message`] for the time that has passed since `time`.
pub fn log_event_at_time_with_kind(
    event: &str,
    time: SystemTime,
    kind: GroupMetricsKind,
) -> (line: String)
    ensures
        is_event_line(line@, kind, event@),
{
    let micros = micros_since(&time);
    event_message(kind, event, micros)
}

/// Reports that `task` took `micros` microseconds, or an unknown time where
/// `micros` is `None`, and restarts the clock: the result is the line of
/// [`duration_message`], and `now` is set to `reading`, whether or not the
/// time could be measured.
pub fn report_and_restart(
    task: &str,
    micros: Option<u128>,
    now: &mut SystemTime,
    reading: SystemTime,
) -> (line: String)
    ensures
        line@ == duration_line(task@, micros),
        *final(now) == reading,
{
    *now = reading;
    duration_message(task, micros)
}

/// Reports how long a task took and starts the clock for the next one: the
/// time that has passed since `now` is measured, the clock is read, and
/// [`report_and_restart`] makes the line of that time and sets `now` to
/// that reading.
pub fn log_and_update_duration(task: &str, now: &mut SystemTime) -> (line: String)
    ensures
        is_duration_line(line@, task@),
{
    let micros = micros_since(now);
    let reading = SystemTime::now();
    report_and_restart(task, micros, now, reading)
}

} // verus!
