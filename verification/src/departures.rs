//! The departure board: what the transit source reports for a stop, turned into the
//! rows that the board shows.

use vstd::prelude::*;
use crate::calendar::{is_calendar_date, is_time_of_day, CivilDateTime};
use crate::numeral::{as_i32, as_u32, parse_i32, parse_u32};

verus! {

/// A date and time as the transit source writes it: every part is decimal text.
#[derive(Debug, Clone)]
pub struct RealDateTimeClass {
    pub year: String,
    pub month: String,
    pub day: String,
    pub weekday: String,
    pub hour: String,
    pub minute: String,
}

/// Who runs a line.
#[derive(Debug, Clone)]
pub struct Operator {
    pub code: String,
    pub name: String,
    pub public_code: String,
}

/// A remark on a line.
#[derive(Debug, Clone)]
pub struct Hint {
    pub content: String,
}

/// The source's own keys of a line.
#[derive(Debug, Clone)]
pub struct LiErgRiProj {
    pub line: String,
    pub project: String,
    pub direction: String,
    pub supplement: String,
    pub network: String,
    pub gid: String,
}

/// The line that serves a departure.
#[derive(Debug, Clone)]
pub struct ServingLine {
    pub key: String,
    pub code: String,
    pub number: String,
    pub symbol: String,
    pub mot_type: String,
    pub mt_subcode: String,
    pub realtime: String,
    pub direction: String,
    pub direction_from: String,
    pub train_num: String,
    pub name: String,
    pub delay: Option<String>,
    pub hints: Option<Vec<Hint>>,
    pub li_erg_ri_proj: LiErgRiProj,
    pub dest_id: String,
    pub stateless: String,
    pub line_display: String,
}

/// One departure as the transit source reports it.
#[derive(Debug, Clone)]
pub struct DepartureList {
    pub stop_id: String,
    pub x: String,
    pub y: String,
    pub map_name: String,
    pub area: String,
    pub platform: String,
    pub platform_name: String,
    pub stop_name: String,
    pub name_wo: String,
    pub countdown: String,
    /// The time by the timetable.
    pub date_time: RealDateTimeClass,
    /// The time now expected, where the source knows better than the timetable.
    pub real_date_time: Option<RealDateTimeClass>,
    pub realtime_trip_status: Option<String>,
    pub serving_line: ServingLine,
    pub operator: Operator,
}

/// One row of the departure board.
#[derive(Debug, Clone)]
pub struct DepartureBoardStop {
    pub stop: String,
    pub line: String,
    pub direction: String,
    pub expected_arrival: CivilDateTime,
    pub given_arrival: CivilDateTime,
}

/// A row of the board, as contracts see it.
pub ghost struct BoardRow {
    pub stop: Seq<char>,
    pub line: Seq<char>,
    pub direction: Seq<char>,
    pub expected_arrival: CivilDateTime,
    pub given_arrival: CivilDateTime,
}

impl View for DepartureBoardStop {
    type V = BoardRow;

    open spec fn view(&self) -> BoardRow {
        BoardRow {
            stop: self.stop@,
            line: self.line@,
            direction: self.direction@,
            expected_arrival: self.expected_arrival,
            given_arrival: self.given_arrival,
        }
    }
}

/// Why a reported date and time cannot be used.
#[derive(Debug, Clone, Copy, PartialEq, Eq)]
pub enum DateTimeError {
    /// The year is no number.
    Year,
    /// The month is no number.
    Month,
    /// The day is no number.
    Day,
    /// The hour is no number.
    Hour,
    /// The minute is no number.
    Minute,
    /// The numbers name no day of the calendar or no minute of the clock.
    NoSuchTime,
}

/// The minute that `date` names. The parts are read in the order year, month, day,
/// hour, minute, and the first that is no number decides the error; then the day must
/// be on the calendar and the minute on the clock.
pub open spec fn date_time_of(date: RealDateTimeClass) -> Result<CivilDateTime, DateTimeError> {
    match as_i32(date.year@) {
        None => Err(DateTimeError::Year),
        Some(year) => match as_u32(date.month@) {
            None => Err(DateTimeError::Month),
            Some(month) => match as_u32(date.day@) {
                None => Err(DateTimeError::Day),
                Some(day) => match as_u32(date.hour@) {
                    None => Err(DateTimeError::Hour),
                    Some(hour) => match as_u32(date.minute@) {
                        None => Err(DateTimeError::Minute),
                        Some(minute) => if is_calendar_date(year as int, month as int, day as int)
                            && is_time_of_day(hour as int, minute as int, 0) {
                            Ok(CivilDateTime { year, month, day, hour, minute })
                        } else {
                            Err(DateTimeError::NoSuchTime)
                        },
                    },
                },
            },
        },
    }
}

/// Reads a reported date and time.
pub fn parse_date_time(date: &RealDateTimeClass) -> (parsed: Result<CivilDateTime, DateTimeError>)
    ensures
        parsed == date_time_of(*date),
        parsed matches Ok(minute) ==> minute.is_valid(),
{
    let year = match parse_i32(date.year.as_str()) {
        Some(year) => year,
        None => {
            return Err(DateTimeError::Year);
        },
    };
    let month = match parse_u32(date.month.as_str()) {
        Some(month) => month,
        None => {
            return Err(DateTimeError::Month);
        },
    };
    let day = match parse_u32(date.day.as_str()) {
        Some(day) => day,
        None => {
            return Err(DateTimeError::Day);
        },
    };
    let hour = match parse_u32(date.hour.as_str()) {
        Some(hour) => hour,
        None => {
            return Err(DateTimeError::Hour);
        },
    };
    let minute = match parse_u32(date.minute.as_str()) {
        Some(minute) => minute,
        None => {
            return Err(DateTimeError::Minute);
        },
    };
    match CivilDateTime::new(year, month, day, hour, minute) {
        Some(made) => Ok(made),
        None => Err(DateTimeError::NoSuchTime),
    }
}

/// The time at which a departure is expected: the source's better knowledge where it
/// reports one, else the timetable's.
pub open spec fn expected_time(departure: DepartureList) -> RealDateTimeClass {
    match departure.real_date_time {
        Some(known) => known,
        None => departure.date_time,
    }
}

/// The row for one departure. The expected time is read before the timetable's, and
/// the first that cannot be used decides the error.
pub open spec fn row_of(departure: DepartureList) -> Result<BoardRow, DateTimeError> {
    match date_time_of(expected_time(departure)) {
        Err(error) => Err(error),
        Ok(expected_arrival) => match date_time_of(departure.date_time) {
            Err(error) => Err(error),
            Ok(given_arrival) => Ok(
                BoardRow {
                    stop: departure.stop_name@,
                    line: departure.serving_line.symbol@,
                    direction: departure.serving_line.direction@,
                    expected_arrival,
                    given_arrival,
                },
            ),
        },
    }
}

/// Makes the row for one departure.
pub fn board_row(departure: &DepartureList) -> (row: Result<DepartureBoardStop, DateTimeError>)
    ensures
        match row {
            Ok(made) => row_of(*departure) == Ok::<BoardRow, DateTimeError>(made@),
            Err(error) => row_of(*departure) == Err::<BoardRow, DateTimeError>(error),
        },
{
    let expected = match &departure.real_date_time {
        Some(known) => parse_date_time(known),
        None => parse_date_time(&departure.date_time),
    };
    let expected_arrival = match expected {
        Ok(minute) => minute,
        Err(error) => {
            return Err(error);
        },
    };
    let given_arrival = match parse_date_time(&departure.date_time) {
        Ok(minute) => minute,
        Err(error) => {
            return Err(error);
        },
    };
    Ok(
        DepartureBoardStop {
            stop: departure.stop_name.clone(),
            line: departure.serving_line.symbol.clone(),
            direction: departure.serving_line.direction.clone(),
            expected_arrival,
            given_arrival,
        },
    )
}

/// Makes the board for the departures of a stop: one row per departure, in the order
/// reported. A departure whose times cannot be used fails the board as a whole, with
/// the error of the first such departure.
pub fn departure_board(departures: &Vec<DepartureList>) -> (board: Result<Vec<DepartureBoardStop>, DateTimeError>)
    ensures
        match board {
            Ok(rows) => {
                &&& rows@.len() == departures@.len()
                &&& forall|i: int|
                    0 <= i < rows@.len() ==> row_of(departures@[i]) == Ok::<BoardRow, DateTimeError>(
                        (#[trigger] rows@[i])@,
                    )
            },
            Err(error) => exists|i: int|
                {
                    &&& 0 <= i < departures@.len()
                    &&& row_of(#[trigger] departures@[i]) == Err::<BoardRow, DateTimeError>(error)
                    &&& forall|j: int| 0 <= j < i ==> row_of(#[trigger] departures@[j]) is Ok
                },
        },
{
    let mut rows: Vec<DepartureBoardStop> = Vec::new();
    let mut i: usize = 0;
    while i < departures.len()
        invariant
            i <= departures@.len(),
            rows@.len() == i,
            forall|j: int|
                0 <= j < i ==> row_of(departures@[j]) == Ok::<BoardRow, DateTimeError>((#[trigger] rows@[j])@),
        decreases departures@.len() - i,
    {
        match board_row(&departures[i]) {
            Ok(row) => {
                rows.push(row);
            },
            Err(error) => {
                assert(row_of(departures@[i as int]) == Err::<BoardRow, DateTimeError>(error));
                assert forall|j: int| 0 <= j < i implies row_of(#[trigger] departures@[j]) is Ok by {
                    assert(row_of(departures@[j]) == Ok::<BoardRow, DateTimeError>(rows@[j]@));
                }
                return Err(error);
            },
        }
        i += 1;
    }
    Ok(rows)
}

} // verus!
