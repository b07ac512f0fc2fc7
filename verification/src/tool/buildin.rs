//! Tools that many agents need: the date and the time, here and in other
//! time zones, and the place of a location on the map.
//!
//! The clock, the calendar and the time zones are those of the `time` and
//! `time_tz` crates. What a tool returns depends on the moment at which it is
//! called, so the contracts here say which errors come on which inputs and
//! what kind of result can come at all.

use crate::tool::{result_view, Reply, ToolError, ToolErrorView, ToolResult, ToolResultView};
use vstd::prelude::*;

verus! {

#[verifier::external_type_specification]
#[verifier::external_body]
pub struct ExOffsetDateTime(time::OffsetDateTime);

#[verifier::external_type_specification]
#[verifier::external_body]
pub struct ExTime(time::Time);

#[verifier::external_type_specification]
#[verifier::external_body]
pub struct ExFormatItem<'a>(time::format_description::BorrowedFormatItem<'a>);

#[verifier::external_type_specification]
#[verifier::external_body]
pub struct ExIndeterminateOffset(time::error::IndeterminateOffset);

#[verifier::external_type_specification]
#[verifier::external_body]
pub struct ExFormatError(time::error::Format);

#[verifier::external_type_specification]
#[verifier::external_body]
pub struct ExInvalidFormatDescription(time::error::InvalidFormatDescription);

#[verifier::external_type_specification]
#[verifier::external_body]
pub struct ExParseError(time::error::Parse);

#[verifier::external_type_specification]
#[verifier::external_body]
pub struct ExTz(time_tz::Tz);

/// Whether `time_tz` knows a time zone named `name`, by its IANA name
/// (`Asia/Tokyo`) or by its Windows name.
pub uninterp spec fn timezone_known(name: Seq<char>) -> bool;

/// Whether `time` can read `description` as the description of a format
/// (`[hour]:[minute]`).
pub uninterp spec fn description_known(description: Seq<char>) -> bool;

/// Whether `text` is a time of day in the format that `description`
/// describes: whether `Time::parse` accepts it.
pub uninterp spec fn time_accepted(description: Seq<char>, text: Seq<char>) -> bool;

/// The Julian day of the date that `date` gives in one of the forms of ISO
/// 8601 (`2024-01-01`): the number of the day in the count of days that
/// astronomers keep. `None` where `date` is no such date.
pub uninterp spec fn iso_julian_day(date: Seq<char>) -> Option<int>;

/// `OffsetDateTime::now_local`: the moment of the call, at the offset of the
/// machine's time zone, or an error where that offset cannot be found out.
#[verifier::external_body]
fn now_local() -> Result<time::OffsetDateTime, time::error::IndeterminateOffset> {
    time::OffsetDateTime::now_local()
}

/// `OffsetDateTime::now_utc`: the moment of the call, at offset zero.
#[verifier::external_body]
fn now_utc() -> time::OffsetDateTime {
    time::OffsetDateTime::now_utc()
}

/// `Date::format` with `Iso8601::DATE`, on the date of `moment`.
#[verifier::external_body]
fn format_date(moment: &time::OffsetDateTime) -> Result<String, time::error::Format> {
    moment.date().format(&time::format_description::well_known::Iso8601::DATE)
}

/// `OffsetDateTime::format` with `Rfc3339`.
#[verifier::external_body]
fn format_rfc3339(moment: &time::OffsetDateTime) -> Result<String, time::error::Format> {
    moment.format(&time::format_description::well_known::Rfc3339)
}

/// `format_description::parse`: reads a description such as
/// `[hour]:[minute]`.
#[verifier::external_body]
fn parse_description<'a>(description: &'a str) -> (outcome: Result<
    Vec<time::format_description::BorrowedFormatItem<'a>>,
    time::error::InvalidFormatDescription,
>)
    ensures
        outcome is Ok <==> description_known(description@),
{
    time::format_description::parse(description)
}

/// `OffsetDateTime::format` with a description that was read before.
#[verifier::external_body]
fn format_moment<'a>(
    moment: &time::OffsetDateTime,
    description: &Vec<time::format_description::BorrowedFormatItem<'a>>,
) -> Result<String, time::error::Format> {
    moment.format(description)
}

/// `format_description::parse`, then `Time::parse` with what it read: the
/// time of day that `text` gives in the format that `description`
/// describes. The outer failure is that of the description, the inner one
/// that of the text.
#[verifier::external_body]
fn parse_time(description: &str, text: &str) -> (outcome: Result<
    Result<time::Time, time::error::Parse>,
    time::error::InvalidFormatDescription,
>)
    ensures
        outcome is Ok <==> description_known(description@),
        outcome matches Ok(read) ==> (read is Ok <==> time_accepted(description@, text@)),
{
    match time::format_description::parse(description) {
        Ok(format) => Ok(time::Time::parse(text, &format)),
        Err(error) => Err(error),
    }
}

/// `Date::parse` with `Iso8601::DEFAULT`: the date that `date` gives, handed
/// out as its Julian day (`Date::to_julian_day`), or the parser's error.
#[verifier::external_body]
fn parse_date(date: &str) -> (outcome: Result<i32, time::error::Parse>)
    ensures
        match iso_julian_day(date@) {
            Some(day) => outcome matches Ok(read) && read == day,
            None => outcome is Err,
        },
{
    match time::Date::parse(date, &time::format_description::well_known::Iso8601::DEFAULT) {
        Ok(date) => Ok(date.to_julian_day()),
        Err(error) => Err(error),
    }
}

/// `timezones::get_by_name`: looks a time zone up by its name.
#[verifier::external_body]
fn find_timezone(name: &str) -> (zone: Option<&'static time_tz::Tz>)
    ensures
        zone is Some <==> timezone_known(name@),
{
    time_tz::timezones::get_by_name(name)
}

/// `TimeZone::get_offset_utc`, `Offset::to_utc` and
/// `OffsetDateTime::checked_to_offset`: the same moment at the offset that
/// `zone` has then, or `None` where that offset moves the date out of the
/// years that `time` can hold.
#[verifier::external_body]
fn in_timezone(moment: &time::OffsetDateTime, zone: &time_tz::Tz) -> Option<time::OffsetDateTime> {
    let offset = time_tz::Offset::to_utc(&time_tz::TimeZone::get_offset_utc(zone, moment));
    moment.checked_to_offset(offset)
}

/// `OffsetDateTime::replace_time`: the same date and offset with `time` as
/// the time of day.
#[verifier::external_body]
fn at_time(moment: time::OffsetDateTime, time: time::Time) -> time::OffsetDateTime {
    moment.replace_time(time)
}

/// What the tools report for a time zone that is not known.
pub open spec fn unknown_timezone(role: Seq<char>, name: Seq<char>) -> ToolErrorView {
    ToolErrorView::Other("Unknown "@ + role + "timezone: "@ + name)
}

/// The error for a time zone that is not known. `role` is empty, or says
/// which of two time zones is meant and ends in a blank.
fn unknown_timezone_error(role: &str, name: &str) -> (error: ToolError)
    ensures
        error@ == unknown_timezone(role@, name@),
{
    let mut text = String::from_str("Unknown ");
    text.append(role);
    text.append("timezone: ");
    text.append(name);
    assert(text@ =~= "Unknown "@ + role@ + "timezone: "@ + name@);
    ToolError::Other(text)
}

/// Whether `result` is the failure `Other` with what some failure of the
/// kind `E` displays.
pub open spec fn accounted<E: core::fmt::Display>(result: ToolResult) -> bool {
    &&& result matches Err(ToolError::Other(account))
    &&& exists|error: E| vstd::string::to_string_from_display_ensures::<E>(&error, account)
}

/// What a tool reports for a time of day `time` that the parser refused:
/// `Other`, with the text refused and then the parser's account.
pub open spec fn refused_time(time: Seq<char>, account: Seq<char>) -> ToolErrorView {
    ToolErrorView::Other("Invalid time format for '"@ + time + "': "@ + account)
}

/// Whether `result` is the failure that a tool reports for the time of day
/// `time`, with what some failure of the parser displays.
pub open spec fn time_refused(time: Seq<char>, result: ToolResult) -> bool {
    exists|error: time::error::Parse, account: String|
        #[trigger] vstd::string::to_string_from_display_ensures::<time::error::Parse>(
            &error,
            account,
        ) && result_view(result) == Err::<Seq<char>, ToolErrorView>(
            refused_time(time, account@),
        )
}

/// What a tool reports for a moment that a time zone moves out of the
/// years that can be held.
pub open spec fn out_of_range() -> ToolErrorView {
    ToolErrorView::Other("The time is out of the supported range"@)
}

/// The description of a time of day in hours and minutes.
pub open spec fn hours_and_minutes() -> Seq<char> {
    "[hour]:[minute]"@
}

/// The description of a time of day in hours, minutes and seconds.
pub open spec fn hours_minutes_and_seconds() -> Seq<char> {
    "[hour]:[minute]:[second]"@
}

/// The English name of the weekday of the Julian day `day`. The week goes
/// round with the count of days, and day 0 was a Monday.
pub open spec fn weekday_name(day: int) -> Seq<char> {
    let place = day % 7;
    if place == 0 {
        "Monday"@
    } else if place == 1 {
        "Tuesday"@
    } else if place == 2 {
        "Wednesday"@
    } else if place == 3 {
        "Thursday"@
    } else if place == 4 {
        "Friday"@
    } else if place == 5 {
        "Saturday"@
    } else {
        "Sunday"@
    }
}

/// Names the weekday of the Julian day `day`.
pub fn weekday(day: i32) -> (name: String)
    ensures
        name@ == weekday_name(day as int),
{
    // 2147483653 is a multiple of 7 that makes every `i32` positive.
    let shifted: i64 = day as i64 + 2147483653;
    let place: i64 = shifted % 7;
    assert(place == (day as int) % 7);
    if place == 0 {
        String::from_str("Monday")
    } else if place == 1 {
        String::from_str("Tuesday")
    } else if place == 2 {
        String::from_str("Wednesday")
    } else if place == 3 {
        String::from_str("Thursday")
    } else if place == 4 {
        String::from_str("Friday")
    } else if place == 5 {
        String::from_str("Saturday")
    } else {
        String::from_str("Sunday")
    }
}

/// Makes the answer of a tool out of what the clock, the calendar or the
/// formatter gave: the text where it gave one, and `Other` with what the
/// failure displays where it failed.
pub fn reported<E: core::fmt::Display>(outcome: Result<String, E>) -> (result: ToolResult)
    ensures
        match outcome {
            Ok(text) => result == Ok::<String, ToolError>(text),
            Err(error) => result matches Err(ToolError::Other(account))
                && vstd::string::to_string_from_display_ensures::<E>(&error, account),
        },
        outcome is Err ==> accounted::<E>(result),
{
    match outcome {
        Ok(text) => Ok(text),
        Err(error) => Err(ToolError::Other(error.to_string())),
    }
}

/// Makes the answer of a tool out of the parser's refusal of the time of
/// day `time`.
pub fn refused(time: &str, error: &time::error::Parse) -> (result: ToolResult)
    ensures
        result matches Err(ToolError::Other(text)) && exists|account: String|
            #[trigger] vstd::string::to_string_from_display_ensures::<time::error::Parse>(
                error,
                account,
            ) && text@ == "Invalid time format for '"@ + time@ + "': "@ + account@,
        time_refused(time@, result),
{
    let account = error.to_string();
    let mut text = String::from_str("Invalid time format for '");
    text.append(time);
    text.append("': ");
    text.append(account.as_str());
    assert(text@ =~= "Invalid time format for '"@ + time@ + "': "@ + account@);
    assert(vstd::string::to_string_from_display_ensures::<time::error::Parse>(error, account));
    Err(ToolError::Other(text))
}

/// The answer of a tool for a moment that a time zone moves out of the
/// years that can be held.
fn out_of_range_error() -> (result: ToolResult)
    ensures
        result_view(result) == Err::<Seq<char>, ToolErrorView>(out_of_range()),
{
    Err(ToolError::Other(String::from_str("The time is out of the supported range")))
}

/// Tools for the current date and time.
pub struct CurrentDateAndTimeToolBox {}

impl CurrentDateAndTimeToolBox {
    /// Today's date in the machine's time zone, as `YYYY-MM-DD`. The date
    /// is read from the clock and written by the formatter of `time`; the
    /// answer is what [`reported`] makes of what they gave.
    pub fn get_today_date(&self) -> (result: ToolResult)
        ensures
            result is Ok || accounted::<time::error::IndeterminateOffset>(result) || accounted::<
                time::error::Format,
            >(result),
    {
        match now_local() {
            Err(error) => reported(Err(error)),
            Ok(today) => reported(format_date(&today)),
        }
    }

    /// The time in the machine's time zone, as `HH:MM:SS`. The time is read
    /// from the clock and written by the formatter of `time`; the answer is
    /// what [`reported`] makes of what they gave.
    pub fn get_current_time(&self) -> (result: ToolResult)
        ensures
            result is Ok || accounted::<time::error::IndeterminateOffset>(result) || accounted::<
                time::error::InvalidFormatDescription,
            >(result) || accounted::<time::error::Format>(result),
    {
        match now_local() {
            Err(error) => reported(Err(error)),
            Ok(now) => match parse_description("[hour]:[minute]:[second]") {
                Err(error) => reported(Err(error)),
                Ok(format) => reported(format_moment(&now, &format)),
            },
        }
    }

    /// The date and time in the machine's time zone, as RFC 3339 writes
    /// them (`2023-10-27T10:30:00+00:00`). They are read from the clock and
    /// written by the formatter of `time`; the answer is what [`reported`]
    /// makes of what they gave.
    pub fn get_current_datetime(&self) -> (result: ToolResult)
        ensures
            result is Ok || accounted::<time::error::IndeterminateOffset>(result) || accounted::<
                time::error::Format,
            >(result),
    {
        match now_local() {
            Err(error) => reported(Err(error)),
            Ok(now) => reported(format_rfc3339(&now)),
        }
    }

    /// The weekday of `date`, a date as ISO 8601 writes it (`2024-01-01`).
    /// Fails where `date` is no such date, with the parser's account.
    pub fn get_day_of_week(&self, date: String) -> (result: ToolResult)
        ensures
            match iso_julian_day(date@) {
                Some(day) => result matches Ok(text) && text@ == weekday_name(day),
                None => accounted::<time::error::Parse>(result),
            },
    {
        match parse_date(date.as_str()) {
            Ok(day) => Ok(weekday(day)),
            Err(error) => reported(Err(error)),
        }
    }

    /// The time in the time zone named `timezone`, as `HH:MM:SS`. Fails
    /// where the time zone is not known. Where it is known, the time is read
    /// from the clock and written by the formatter of `time`, and the answer
    /// is what [`reported`] makes of what they gave.
    pub fn get_time_in_timezone(&self, timezone: String) -> (result: ToolResult)
        ensures
            !timezone_known(timezone@) ==> result_view(result) == Err::<Seq<char>, ToolErrorView>(
                unknown_timezone(""@, timezone@),
            ),
            timezone_known(timezone@) && description_known(hours_minutes_and_seconds())
                ==> result is Ok || result_view(result) == Err::<Seq<char>, ToolErrorView>(
                out_of_range(),
            ) || accounted::<time::error::Format>(result),
            timezone_known(timezone@) && !description_known(hours_minutes_and_seconds())
                ==> result_view(result) == Err::<Seq<char>, ToolErrorView>(out_of_range())
                || accounted::<time::error::InvalidFormatDescription>(result),
    {
        let zone = match find_timezone(timezone.as_str()) {
            Some(zone) => zone,
            None => {
                return Err(unknown_timezone_error("", timezone.as_str()));
            },
        };
        let now = match in_timezone(&now_utc(), zone) {
            Some(now) => now,
            None => {
                return out_of_range_error();
            },
        };
        match parse_description("[hour]:[minute]:[second]") {
            Err(error) => reported(Err(error)),
            Ok(format) => reported(format_moment(&now, &format)),
        }
    }

    /// What `time`, a time of day as `HH:MM` in the time zone
    /// `source_timezone` today, is in the time zone `target_timezone`, as
    /// `HH:MM`.
    ///
    /// Fails where a time zone is not known, the source first; then where
    /// `time` is no time of day, with the text and the parser's account.
    /// Where all three are in order, the day is read from the clock and the
    /// answer written by the formatter of `time`.
    pub fn convert_time(
        &self,
        source_timezone: String,
        time: String,
        target_timezone: String,
    ) -> (result: ToolResult)
        ensures
            !timezone_known(source_timezone@) ==> result_view(result) == Err::<
                Seq<char>,
                ToolErrorView,
            >(unknown_timezone("source "@, source_timezone@)),
            timezone_known(source_timezone@) && !timezone_known(target_timezone@) ==> result_view(
                result,
            ) == Err::<Seq<char>, ToolErrorView>(
                unknown_timezone("target "@, target_timezone@),
            ),
            timezone_known(source_timezone@) && timezone_known(target_timezone@)
                && !description_known(hours_and_minutes()) ==> accounted::<
                time::error::InvalidFormatDescription,
            >(result),
            timezone_known(source_timezone@) && timezone_known(target_timezone@)
                && description_known(hours_and_minutes()) && !time_accepted(
                hours_and_minutes(),
                time@,
            ) ==> time_refused(time@, result),
            timezone_known(source_timezone@) && timezone_known(target_timezone@)
                && description_known(hours_and_minutes()) && time_accepted(
                hours_and_minutes(),
                time@,
            ) ==> result is Ok || result_view(result) == Err::<Seq<char>, ToolErrorView>(
                out_of_range(),
            ) || accounted::<time::error::Format>(result),
    {
        let source = match find_timezone(source_timezone.as_str()) {
            Some(zone) => zone,
            None => {
                return Err(unknown_timezone_error("source ", source_timezone.as_str()));
            },
        };
        let target = match find_timezone(target_timezone.as_str()) {
            Some(zone) => zone,
            None => {
                return Err(unknown_timezone_error("target ", target_timezone.as_str()));
            },
        };
        let format = match parse_description("[hour]:[minute]") {
            Ok(format) => format,
            Err(error) => {
                return reported(Err(error));
            },
        };
        let time_of_day = match parse_time("[hour]:[minute]", time.as_str()) {
            Ok(Ok(time_of_day)) => time_of_day,
            Ok(Err(error)) => {
                return refused(time.as_str(), &error);
            },
            Err(error) => {
                return reported(Err(error));
            },
        };
        let now = match in_timezone(&now_utc(), source) {
            Some(now) => now,
            None => {
                return out_of_range_error();
            },
        };
        match in_timezone(&at_time(now, time_of_day), target) {
            Some(there) => reported(format_moment(&there, &format)),
            None => out_of_range_error(),
        }
    }
}

/// A place, as the map service describes it.
#[derive(Debug, PartialEq)]
pub struct Location {
    pub display_name: String,
    pub lat: String,
    pub lon: String,
}

/// The address at which the map service is asked for `location`.
pub open spec fn location_url(location: Seq<char>) -> Seq<char> {
    "https://nominatim.openstreetmap.org/search?q="@ + location + "&format=jsonv2"@
}

/// What the search for `location` comes to: the first place that the map
/// service gave, with its latitude and longitude, or the reason why there is
/// none.
pub open spec fn location_text(location: Seq<char>, reply: Reply<Vec<Location>>) -> ToolResultView {
    match reply {
        Reply::Unsent(error) => Err(ToolErrorView::Other("Failed to send request: "@ + error@)),
        Reply::Refused(status) => Err(
            ToolErrorView::Other("API request failed with status: "@ + status@),
        ),
        Reply::Unreadable(error) => Err(
            ToolErrorView::Other("Failed to parse JSON response: "@ + error@),
        ),
        Reply::Body(places) => if places@.len() == 0 {
            Err(ToolErrorView::Other("No location found for '"@ + location + "'"@))
        } else {
            Ok(
                "Location: "@ + places@[0].display_name@ + ", Latitude: "@ + places@[0].lat@
                    + ", Longitude: "@ + places@[0].lon@,
            )
        },
    }
}

/// A tool that finds places on the map, through the Nominatim service of
/// OpenStreetMap.
pub struct LocationToolBox;

impl LocationToolBox {
    /// The name by which the tool introduces itself to the map service, in
    /// the header `User-Agent`.
    pub fn user_agent() -> (name: &'static str)
        ensures
            name@ == "rust-agentai-client"@,
    {
        "rust-agentai-client"
    }

    /// The address at which the map service is asked for `location`.
    pub fn search_url(location: &str) -> (url: String)
        ensures
            url@ == location_url(location@),
    {
        let mut url = String::from_str("https://nominatim.openstreetmap.org/search?q=");
        url.append(location);
        url.append("&format=jsonv2");
        url
    }

    /// Makes the answer to the search for `location` out of the map
    /// service's reply.
    pub fn get_location(location: &str, reply: Reply<Vec<Location>>) -> (result: ToolResult)
        ensures
            result_view(result) == location_text(location@, reply),
    {
        match reply {
            Reply::Unsent(error) => {
                let mut text = String::from_str("Failed to send request: ");
                text.append(error.as_str());
                Err(ToolError::Other(text))
            },
            Reply::Refused(status) => {
                let mut text = String::from_str("API request failed with status: ");
                text.append(status.as_str());
                Err(ToolError::Other(text))
            },
            Reply::Unreadable(error) => {
                let mut text = String::from_str("Failed to parse JSON response: ");
                text.append(error.as_str());
                Err(ToolError::Other(text))
            },
            Reply::Body(places) => {
                if places.len() == 0 {
                    let mut text = String::from_str("No location found for '");
                    text.append(location);
                    text.append("'");
                    Err(ToolError::Other(text))
                } else {
                    let place = &places[0];
                    let mut text = String::from_str("Location: ");
                    text.append(place.display_name.as_str());
                    text.append(", Latitude: ");
                    text.append(place.lat.as_str());
                    text.append(", Longitude: ");
                    text.append(place.lon.as_str());
                    assert(text@ =~= "Location: "@ + place.display_name@ + ", Latitude: "@
                        + place.lat@ + ", Longitude: "@ + place.lon@);
                    Ok(text)
                }
            },
        }
    }
}

} // verus!
