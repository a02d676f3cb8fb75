//! The weather context: which forecast hours fill the display's four day
//! buckets, the weather-code icon table, and the extraction of those hours
//! from a forecast.
use vstd::prelude::*;
use chrono::Offset;
use crate::api::{build_url, url_of};

verus! {

/// Icons the display templates know, one per group of weather codes.
#[derive(Clone, Copy, Debug, PartialEq, Eq, Structural)]
pub enum WeatherIcon {
    Sunny,
    PartlyCloudyDay,
    Cloud,
    Cloudy,
    Foggy,
    RainyLight,
    Rainy,
    RainyHeavy,
    AcUnit,
    SevereCold,
    WeatherSnowy,
    Snowing,
    SnowingHeavy,
    Grain,
    Thunderstorm,
    Help,
}

/// The icon for a WMO weather code; unknown codes get the help icon.
pub open spec fn icon_of(code: u64) -> WeatherIcon {
    if code == 0 {
        WeatherIcon::Sunny
    } else if code == 1 || code == 2 {
        WeatherIcon::PartlyCloudyDay
    } else if code == 3 {
        WeatherIcon::Cloudy
    } else if code == 45 || code == 48 {
        WeatherIcon::Foggy
    } else if code == 51 || code == 61 || code == 80 {
        WeatherIcon::RainyLight
    } else if code == 53 || code == 63 || code == 81 {
        WeatherIcon::Rainy
    } else if code == 55 || code == 65 || code == 82 {
        WeatherIcon::RainyHeavy
    } else if code == 56 || code == 66 {
        WeatherIcon::AcUnit
    } else if code == 57 || code == 67 {
        WeatherIcon::SevereCold
    } else if code == 71 || code == 85 {
        WeatherIcon::WeatherSnowy
    } else if code == 73 {
        WeatherIcon::Snowing
    } else if code == 75 || code == 86 {
        WeatherIcon::SnowingHeavy
    } else if code == 77 {
        WeatherIcon::Grain
    } else if code == 95 || code == 96 || code == 99 {
        WeatherIcon::Thunderstorm
    } else {
        WeatherIcon::Help
    }
}

/// The name under which templates look an icon up.
pub open spec fn icon_name(icon: WeatherIcon) -> Seq<char> {
    match icon {
        WeatherIcon::Sunny => "sunny"@,
        WeatherIcon::PartlyCloudyDay => "partly_cloudy_day"@,
        WeatherIcon::Cloud => "cloud"@,
        WeatherIcon::Cloudy => "cloudy"@,
        WeatherIcon::Foggy => "foggy"@,
        WeatherIcon::RainyLight => "rainy_light"@,
        WeatherIcon::Rainy => "rainy"@,
        WeatherIcon::RainyHeavy => "rainy_heavy"@,
        WeatherIcon::AcUnit => "ac_unit"@,
        WeatherIcon::SevereCold => "severe_cold"@,
        WeatherIcon::WeatherSnowy => "weather_snowy"@,
        WeatherIcon::Snowing => "snowing"@,
        WeatherIcon::SnowingHeavy => "snowing_heavy"@,
        WeatherIcon::Grain => "grain"@,
        WeatherIcon::Thunderstorm => "thunderstorm"@,
        WeatherIcon::Help => "help"@,
    }
}

impl WeatherIcon {
    /// The name under which templates look this icon up.
    pub fn name(&self) -> (r: &'static str)
        ensures
            r@ == icon_name(*self),
    {
        match self {
            WeatherIcon::Sunny => "sunny",
            WeatherIcon::PartlyCloudyDay => "partly_cloudy_day",
            WeatherIcon::Cloud => "cloud",
            WeatherIcon::Cloudy => "cloudy",
            WeatherIcon::Foggy => "foggy",
            WeatherIcon::RainyLight => "rainy_light",
            WeatherIcon::Rainy => "rainy",
            WeatherIcon::RainyHeavy => "rainy_heavy",
            WeatherIcon::AcUnit => "ac_unit",
            WeatherIcon::SevereCold => "severe_cold",
            WeatherIcon::WeatherSnowy => "weather_snowy",
            WeatherIcon::Snowing => "snowing",
            WeatherIcon::SnowingHeavy => "snowing_heavy",
            WeatherIcon::Grain => "grain",
            WeatherIcon::Thunderstorm => "thunderstorm",
            WeatherIcon::Help => "help",
        }
    }
}

/// The icon for a WMO weather code; total, with a fallback for unknown codes.
pub fn weather_code_to_icon(code: u64) -> (r: WeatherIcon)
    ensures
        r == icon_of(code),
{
    match code {
        0 => WeatherIcon::Sunny,
        1 | 2 => WeatherIcon::PartlyCloudyDay,
        3 => WeatherIcon::Cloudy,
        45 | 48 => WeatherIcon::Foggy,
        51 | 61 | 80 => WeatherIcon::RainyLight,
        53 | 63 | 81 => WeatherIcon::Rainy,
        55 | 65 | 82 => WeatherIcon::RainyHeavy,
        56 | 66 => WeatherIcon::AcUnit,
        57 | 67 => WeatherIcon::SevereCold,
        71 | 85 => WeatherIcon::WeatherSnowy,
        73 => WeatherIcon::Snowing,
        75 | 86 => WeatherIcon::SnowingHeavy,
        77 => WeatherIcon::Grain,
        95 | 96 | 99 => WeatherIcon::Thunderstorm,
        _ => WeatherIcon::Help,
    }
}

#[derive(Clone, Copy, Debug, PartialEq, Eq, Structural)]
pub enum Weekday {
    Mon,
    Tue,
    Wed,
    Thu,
    Fri,
    Sat,
    Sun,
}

/// Monday is 0, Sunday is 6.
pub open spec fn weekday_index(w: Weekday) -> int {
    match w {
        Weekday::Mon => 0,
        Weekday::Tue => 1,
        Weekday::Wed => 2,
        Weekday::Thu => 3,
        Weekday::Fri => 4,
        Weekday::Sat => 5,
        Weekday::Sun => 6,
    }
}

pub open spec fn weekday_from_index(i: int) -> Weekday {
    if i == 0 {
        Weekday::Mon
    } else if i == 1 {
        Weekday::Tue
    } else if i == 2 {
        Weekday::Wed
    } else if i == 3 {
        Weekday::Thu
    } else if i == 4 {
        Weekday::Fri
    } else if i == 5 {
        Weekday::Sat
    } else {
        Weekday::Sun
    }
}

pub open spec fn is_weekend(w: Weekday) -> bool {
    w == Weekday::Sat || w == Weekday::Sun
}

/// Days from weekday `from` forward to weekday `target`, in `0..7`.
pub open spec fn days_until(target: int, from: int) -> int {
    (target - from) % 7
}

/// Day offsets of the four buckets: today, tomorrow, then Saturday and
/// Sunday, of this week or, seen from a weekend day, of the next one.
pub open spec fn bucket_day_offsets(w: Weekday) -> Seq<int> {
    let roll = if is_weekend(w) { 7int } else { 0int };
    seq![0, 1, roll + days_until(5, weekday_index(w)), roll + days_until(6, weekday_index(w))]
}

pub open spec fn bucket_titles(w: Weekday) -> Seq<Seq<char>> {
    if is_weekend(w) {
        seq!["Today"@, "Tomorrow"@, "Next Sat"@, "Next Sun"@]
    } else {
        seq!["Today"@, "Tomorrow"@, "Sat"@, "Sun"@]
    }
}

/// The local hours sampled in each day bucket.
pub open spec fn sample_hours() -> Seq<int> {
    seq![7, 10, 12, 15, 18]
}

/// Forecast hour indexes of the samples of a day that starts `offset` hours in.
pub open spec fn hour_indexes(offset: int) -> Seq<int> {
    Seq::new(5, |k: int| sample_hours()[k] + offset)
}

/// One day bucket: its title and its first hour in the forecast.
pub struct DayBucket {
    pub title: String,
    pub offset: usize,
}

impl Weekday {
    /// Days from this weekday forward to `target`, as chrono's `days_since`
    /// counts them from the other side.
    pub fn days_until(self, target: Weekday) -> (r: u32)
        ensures
            r == days_until(weekday_index(target), weekday_index(self)),
    {
        let t = target.index();
        let s = self.index();
        (t + 7 - s) % 7
    }

    pub fn index(self) -> (r: u32)
        ensures
            r == weekday_index(self),
    {
        match self {
            Weekday::Mon => 0,
            Weekday::Tue => 1,
            Weekday::Wed => 2,
            Weekday::Thu => 3,
            Weekday::Fri => 4,
            Weekday::Sat => 5,
            Weekday::Sun => 6,
        }
    }

    pub fn from_index(i: u32) -> (r: Weekday)
        requires
            i < 7,
        ensures
            weekday_index(r) == i,
    {
        match i {
            0 => Weekday::Mon,
            1 => Weekday::Tue,
            2 => Weekday::Wed,
            3 => Weekday::Thu,
            4 => Weekday::Fri,
            5 => Weekday::Sat,
            _ => Weekday::Sun,
        }
    }
}

fn bucket(title: &str, days: u32) -> (r: DayBucket)
    requires
        days < 14,
    ensures
        r.title@ == title@,
        r.offset == 24 * days,
{
    DayBucket { title: title.to_owned(), offset: 24 * days as usize }
}

/// The four day buckets shown on a given weekday.
pub fn day_buckets(weekday: Weekday) -> (r: Vec<DayBucket>)
    ensures
        r@.len() == 4,
        forall|i: int| 0 <= i < 4 ==> {
            &&& (#[trigger] r@[i]).title@ == bucket_titles(weekday)[i]
            &&& r@[i].offset == 24 * bucket_day_offsets(weekday)[i]
        },
{
    let weekend = weekday == Weekday::Sat || weekday == Weekday::Sun;
    let roll: u32 = if weekend { 7 } else { 0 };
    let third = roll + weekday.days_until(Weekday::Sat);
    let fourth = roll + weekday.days_until(Weekday::Sun);
    let (third_title, fourth_title) = if weekend {
        ("Next Sat", "Next Sun")
    } else {
        ("Sat", "Sun")
    };
    let r = vec![
        bucket("Today", 0),
        bucket("Tomorrow", 1),
        bucket(third_title, third),
        bucket(fourth_title, fourth),
    ];
    assert(is_weekend(weekday) == weekend);
    r
}

/// Forecast hour indexes of one day's samples.
pub struct HourIndexes(pub [usize; 5]);

impl HourIndexes {
    /// The sample hours of the day that starts `offset` hours into the forecast.
    pub fn new(offset: usize) -> (r: HourIndexes)
        requires
            offset <= usize::MAX - 18,
        ensures
            forall|k: int| 0 <= k < 5 ==> r.0@[k] == #[trigger] hour_indexes(offset as int)[k],
    {
        HourIndexes([7 + offset, 10 + offset, 12 + offset, 15 + offset, 18 + offset])
    }
}

/// Which weekend days the last two buckets show, and when: from a Friday or
/// from Monday to Thursday the Saturday and Sunday of the same week; from a
/// Saturday or Sunday those of the next week, at least a week ahead.
pub proof fn lemma_weekend_buckets(w: Weekday)
    ensures
        (weekday_index(w) + bucket_day_offsets(w)[2]) % 7 == 5,
        (weekday_index(w) + bucket_day_offsets(w)[3]) % 7 == 6,
        w == Weekday::Fri ==> bucket_titles(w)[2] == "Sat"@ && bucket_titles(w)[3] == "Sun"@
            && bucket_day_offsets(w)[2] == 1 && bucket_day_offsets(w)[3] == 2,
        is_weekend(w) ==> bucket_titles(w)[2] == "Next Sat"@ && bucket_titles(w)[3] == "Next Sun"@
            && 24 * bucket_day_offsets(w)[2] >= 168 && 24 * bucket_day_offsets(w)[3] >= 168,
        !is_weekend(w) ==> bucket_titles(w)[2] == "Sat"@ && bucket_titles(w)[3] == "Sun"@
            && 0 < bucket_day_offsets(w)[2] < 7 && 0 < bucket_day_offsets(w)[3] < 7,
{
}

/// The hour of day of local time `local` (seconds since the Unix epoch in
/// local wall-clock time).
pub open spec fn hour_at(local: int) -> int {
    (local % 86400) / 3600
}

/// The hour of day of a local time given in seconds since the Unix epoch.
pub fn hour_at_local_seconds(local: i64) -> (r: usize)
    ensures
        r == hour_at(local as int),
        r < 24,
{
    if local >= 0 {
        ((local as u64 % 86400) / 3600) as usize
    } else {
        let n = (-(local + 1)) as u64;
        let rem = n % 86400;
        proof {
            vstd::arithmetic::div_mod::lemma_fundamental_div_mod(n as int, 86400);
            vstd::arithmetic::div_mod::lemma_fundamental_div_mod_converse(
                local as int,
                86400,
                -((n / 86400) as int) - 1,
                86399 - rem as int,
            );
        }
        ((86399 - rem) / 3600) as usize
    }
}

/// The day count and weekday of local time `local` (seconds since the Unix
/// epoch in local wall-clock time); the epoch fell on a Thursday.
pub open spec fn weekday_at(local: int) -> int {
    (local / 86400 + 3) % 7
}

/// The weekday of a local time given in seconds since the Unix epoch.
pub fn weekday_at_local_seconds(local: i64) -> (r: Weekday)
    ensures
        weekday_index(r) == weekday_at(local as int),
        r == weekday_from_index(weekday_at(local as int)),
{
    if local >= 0 {
        let days = (local as u64) / 86400;
        proof {
            vstd::arithmetic::div_mod::lemma_add_mod_noop(days as int, 3, 7);
            assert(3int % 7 == 3);
        }
        Weekday::from_index(((days % 7 + 3) % 7) as u32)
    } else {
        let n = (-(local + 1)) as u64;
        let q = n / 86400;
        proof {
            let r = n as int % 86400;
            vstd::arithmetic::div_mod::lemma_fundamental_div_mod(n as int, 86400);
            vstd::arithmetic::div_mod::lemma_fundamental_div_mod_converse(
                local as int,
                86400,
                -(q as int) - 1,
                86400 - r - 1,
            );
        }
        let m = q % 7;
        proof {
            vstd::arithmetic::div_mod::lemma_fundamental_div_mod(q as int, 7);
            let c = -(q as int / 7) - 1;
            assert(-(q as int) - 1 + 3 == 7 * c + (9 - m as int));
            vstd::arithmetic::div_mod::lemma_mod_multiples_vanish(c, 9 - m as int, 7);
        }
        Weekday::from_index(((9 - m) % 7) as u32)
    }
}

/// The wall-clock offset from UTC, in seconds, of IANA time zone `tz` at the
/// instant `utc` (seconds since the Unix epoch); `None` for an unknown zone or
/// an instant out of range.
pub uninterp spec fn utc_offset_of(tz: Seq<char>, utc: int) -> Option<int>;

/// A local wall-clock time written out by chrono's strftime-style `format`;
/// `None` for a time out of chrono's range.
pub uninterp spec fn formatted_time_of(local: int, format: Seq<char>) -> Option<Seq<char>>;

/// The format of the display's time label: month, day, and the time on a
/// twelve-hour clock.
pub open spec fn time_label_format() -> Seq<char> {
    "%b-%e %l:%M%P"@
}

/// Relies on chrono-tz's zone table (`Tz: FromStr`, `with_timezone`) and
/// chrono's `Offset::fix`, whose offsets lie strictly within one day.
#[verifier::external_body]
fn utc_offset(tz: &str, utc: i64) -> (r: Option<i32>)
    ensures
        r matches Some(o) ==> -86400 < o < 86400,
        r matches Some(o) ==> utc_offset_of(tz@, utc as int) == Some(o as int),
        r is None ==> utc_offset_of(tz@, utc as int) is None,
{
    let zone: chrono_tz::Tz = tz.parse().ok()?;
    let instant = chrono::DateTime::from_timestamp(utc, 0)?;
    Some(instant.with_timezone(&zone).offset().fix().local_minus_utc())
}

/// Relies on chrono's `DateTime::from_timestamp` and `format`; `None` for a
/// time out of chrono's range.
#[verifier::external_body]
fn format_time(local: i64, format: &str) -> (r: Option<String>)
    requires
        format@ == time_label_format(),
    ensures
        r matches Some(s) ==> formatted_time_of(local as int, format@) == Some(s@),
        r is None ==> formatted_time_of(local as int, format@) is None,
{
    let t = chrono::DateTime::from_timestamp(local, 0)?;
    Some(t.naive_utc().format(format).to_string())
}

/// The display's time label of a local wall-clock time.
pub open spec fn time_label_of(local: int) -> Option<Seq<char>> {
    formatted_time_of(local, time_label_format())
}

#[verifier::external_type_specification]
#[verifier::external_body]
pub struct ExNumber(serde_json::Number);

/// A derived clone: the copy equals the original.
pub assume_specification[ <serde_json::Number as Clone>::clone ](n: &serde_json::Number) -> (r: serde_json::Number)
    ensures
        r == *n,
;

/// The forecast values that the buckets read: the current conditions and, per
/// hour from local midnight of today, a weather code, a temperature and a
/// precipitation probability; `None` where the source lacks a value.
pub struct Forecast {
    pub current_weather_code: Option<u64>,
    pub current_temperature: Option<serde_json::Number>,
    pub current_precipitation_probability: Option<serde_json::Number>,
    pub hourly_weather_code: Vec<Option<u64>>,
    pub hourly_temperature: Vec<Option<serde_json::Number>>,
    pub hourly_precipitation_probability: Vec<Option<serde_json::Number>>,
}

#[derive(Clone, Copy, Debug, PartialEq, Eq, Structural)]
pub enum ForecastField {
    CurrentWeatherCode,
    CurrentTemperature,
    CurrentPrecipitationProbability,
    HourlyWeatherCode,
    HourlyTemperature,
    HourlyPrecipitationProbability,
}

/// A forecast value that is missing: which field, at which hour index (zero
/// for the current conditions).
#[derive(Clone, Copy, Debug, PartialEq, Eq, Structural)]
pub struct FieldError {
    pub field: ForecastField,
    pub index: usize,
}

pub struct HourWeather {
    pub icon: WeatherIcon,
    pub temperature: serde_json::Number,
    pub hour: usize,
    pub precipitation_probability: serde_json::Number,
}

pub struct DayWeather {
    pub title: String,
    pub hours: Vec<Option<HourWeather>>,
}

pub struct WeatherContext {
    pub current: HourWeather,
    pub time: String,
    pub days: Vec<DayWeather>,
}

pub open spec fn value_at<T>(s: Seq<Option<T>>, i: int) -> Option<T> {
    if 0 <= i < s.len() {
        s[i]
    } else {
        None
    }
}

/// Whether the forecast lacks the value that `e` names.
pub open spec fn field_missing(f: Forecast, e: FieldError) -> bool {
    match e.field {
        ForecastField::CurrentWeatherCode => f.current_weather_code is None && e.index == 0,
        ForecastField::CurrentTemperature => f.current_temperature is None && e.index == 0,
        ForecastField::CurrentPrecipitationProbability => f.current_precipitation_probability is None && e.index == 0,
        ForecastField::HourlyWeatherCode => value_at(f.hourly_weather_code@, e.index as int) is None,
        ForecastField::HourlyTemperature => value_at(f.hourly_temperature@, e.index as int) is None,
        ForecastField::HourlyPrecipitationProbability =>
            value_at(f.hourly_precipitation_probability@, e.index as int) is None,
    }
}

pub open spec fn hour_present(f: Forecast, i: int) -> bool {
    &&& value_at(f.hourly_weather_code@, i) is Some
    &&& value_at(f.hourly_temperature@, i) is Some
    &&& value_at(f.hourly_precipitation_probability@, i) is Some
}

/// The sample at forecast hour `i`, its hour of day counted from midnight.
pub open spec fn hour_weather(f: Forecast, i: int) -> HourWeather {
    HourWeather {
        icon: icon_of(value_at(f.hourly_weather_code@, i).unwrap()),
        temperature: value_at(f.hourly_temperature@, i).unwrap(),
        hour: (i % 24) as usize,
        precipitation_probability: value_at(f.hourly_precipitation_probability@, i).unwrap(),
    }
}

pub open spec fn day_present(f: Forecast, offset: int) -> bool {
    forall|k: int| 0 <= k < 5 ==> hour_present(f, #[trigger] hour_indexes(offset)[k])
}

/// Whether a day's samples equal the forecast's hours from `offset` on.
pub open spec fn day_matches(f: Forecast, d: DayWeather, title: Seq<char>, offset: int) -> bool {
    &&& d.title@ == title
    &&& d.hours@.len() == 5
    &&& forall|k: int| 0 <= k < 5 ==> #[trigger] d.hours@[k] == Some(hour_weather(f, hour_indexes(offset)[k]))
}

pub open spec fn forecast_complete(f: Forecast, w: Weekday) -> bool {
    &&& f.current_weather_code is Some
    &&& f.current_temperature is Some
    &&& f.current_precipitation_probability is Some
    &&& forall|i: int| 0 <= i < 4 ==> day_present(f, 24 * #[trigger] bucket_day_offsets(w)[i])
}

/// The first value missing at forecast hour `i`: weather code, temperature,
/// then precipitation probability.
pub open spec fn hour_error(f: Forecast, i: int) -> Option<FieldError> {
    if value_at(f.hourly_weather_code@, i) is None {
        Some(FieldError { field: ForecastField::HourlyWeatherCode, index: i as usize })
    } else if value_at(f.hourly_temperature@, i) is None {
        Some(FieldError { field: ForecastField::HourlyTemperature, index: i as usize })
    } else if value_at(f.hourly_precipitation_probability@, i) is None {
        Some(FieldError { field: ForecastField::HourlyPrecipitationProbability, index: i as usize })
    } else {
        None
    }
}

/// The first value missing among the samples `k..5` of the day at `offset`.
pub open spec fn day_error_from(f: Forecast, offset: int, k: int) -> Option<FieldError>
    decreases 5 - k,
{
    if k >= 5 || k < 0 {
        None
    } else if hour_error(f, hour_indexes(offset)[k]) is Some {
        hour_error(f, hour_indexes(offset)[k])
    } else {
        day_error_from(f, offset, k + 1)
    }
}

pub open spec fn current_error(f: Forecast) -> Option<FieldError> {
    if f.current_weather_code is None {
        Some(FieldError { field: ForecastField::CurrentWeatherCode, index: 0 })
    } else if f.current_temperature is None {
        Some(FieldError { field: ForecastField::CurrentTemperature, index: 0 })
    } else if f.current_precipitation_probability is None {
        Some(FieldError { field: ForecastField::CurrentPrecipitationProbability, index: 0 })
    } else {
        None
    }
}

/// The first value missing among buckets `i..4`, in bucket order.
pub open spec fn buckets_error_from(f: Forecast, w: Weekday, i: int) -> Option<FieldError>
    decreases 4 - i,
{
    if i >= 4 || i < 0 {
        None
    } else if day_error_from(f, 24 * bucket_day_offsets(w)[i], 0) is Some {
        day_error_from(f, 24 * bucket_day_offsets(w)[i], 0)
    } else {
        buckets_error_from(f, w, i + 1)
    }
}

/// The first missing value in the order the context is read: the current
/// conditions, then each bucket's samples in turn.
pub open spec fn forecast_error(f: Forecast, w: Weekday) -> Option<FieldError> {
    if current_error(f) is Some {
        current_error(f)
    } else {
        buckets_error_from(f, w, 0)
    }
}

/// The current conditions, where all three values are present.
pub open spec fn current_weather(f: Forecast, hour: usize) -> HourWeather {
    HourWeather {
        icon: icon_of(f.current_weather_code.unwrap()),
        temperature: f.current_temperature.unwrap(),
        hour,
        precipitation_probability: f.current_precipitation_probability.unwrap(),
    }
}

impl HourWeather {
    fn clone_number(n: &Option<serde_json::Number>) -> (r: Option<serde_json::Number>)
        ensures
            r == *n,
    {
        match n {
            Some(v) => Some(v.clone()),
            None => None,
        }
    }

    fn value<T: Copy>(values: &Vec<Option<T>>, i: usize) -> (r: Option<T>)
        ensures
            r == value_at(values@, i as int),
    {
        if i < values.len() {
            values[i]
        } else {
            None
        }
    }

    fn number(values: &Vec<Option<serde_json::Number>>, i: usize) -> (r: Option<serde_json::Number>)
        ensures
            r == value_at(values@, i as int),
    {
        if i < values.len() {
            Self::clone_number(&values[i])
        } else {
            None
        }
    }

    /// The current conditions, at local hour of day `hour`.
    pub fn current(f: &Forecast, hour: usize) -> (r: Result<HourWeather, FieldError>)
        ensures
            r matches Ok(h) ==> h == current_weather(*f, hour),
            r matches Err(e) ==> field_missing(*f, e) && Some(e) == current_error(*f),
            r is Ok <==> current_error(*f) is None,
    {
        let code = match f.current_weather_code {
            Some(c) => c,
            None => return Err(FieldError { field: ForecastField::CurrentWeatherCode, index: 0 }),
        };
        let temperature = match Self::clone_number(&f.current_temperature) {
            Some(t) => t,
            None => return Err(FieldError { field: ForecastField::CurrentTemperature, index: 0 }),
        };
        let precipitation_probability = match Self::clone_number(&f.current_precipitation_probability) {
            Some(p) => p,
            None => return Err(FieldError { field: ForecastField::CurrentPrecipitationProbability, index: 0 }),
        };
        Ok(HourWeather { icon: weather_code_to_icon(code), temperature, hour, precipitation_probability })
    }

    /// The sample at forecast hour `i`.
    pub fn from(f: &Forecast, i: usize) -> (r: Result<HourWeather, FieldError>)
        ensures
            r matches Ok(h) ==> hour_present(*f, i as int) && h == hour_weather(*f, i as int),
            r matches Err(e) ==> !hour_present(*f, i as int) && field_missing(*f, e)
                && Some(e) == hour_error(*f, i as int),
            r is Ok <==> hour_error(*f, i as int) is None,
    {
        let code = match Self::value(&f.hourly_weather_code, i) {
            Some(c) => c,
            None => return Err(FieldError { field: ForecastField::HourlyWeatherCode, index: i }),
        };
        let temperature = match Self::number(&f.hourly_temperature, i) {
            Some(t) => t,
            None => return Err(FieldError { field: ForecastField::HourlyTemperature, index: i }),
        };
        let precipitation_probability = match Self::number(&f.hourly_precipitation_probability, i) {
            Some(p) => p,
            None => return Err(
                FieldError { field: ForecastField::HourlyPrecipitationProbability, index: i },
            ),
        };
        Ok(HourWeather { icon: weather_code_to_icon(code), temperature, hour: i % 24, precipitation_probability })
    }
}

impl DayWeather {
    /// The five samples of the day that starts `offset` hours into the forecast.
    pub fn from(f: &Forecast, title: &str, offset: usize) -> (r: Result<DayWeather, FieldError>)
        requires
            offset <= usize::MAX - 18,
        ensures
            r matches Ok(d) ==> day_present(*f, offset as int) && day_matches(*f, d, title@, offset as int),
            r matches Err(e) ==> !day_present(*f, offset as int) && field_missing(*f, e)
                && Some(e) == day_error_from(*f, offset as int, 0),
            r is Ok <==> day_error_from(*f, offset as int, 0) is None,
    {
        let indexes = HourIndexes::new(offset);
        let mut hours: Vec<Option<HourWeather>> = Vec::new();
        let mut k: usize = 0;
        while k < 5
            invariant
                k <= 5,
                offset <= usize::MAX - 18,
                forall|j: int| 0 <= j < 5 ==> indexes.0@[j] == #[trigger] hour_indexes(offset as int)[j],
                hours@.len() == k,
                forall|j: int| 0 <= j < k ==> hour_present(*f, #[trigger] hour_indexes(offset as int)[j]),
                forall|j: int| 0 <= j < k ==> #[trigger] hours@[j] == Some(hour_weather(*f, hour_indexes(offset as int)[j])),
                day_error_from(*f, offset as int, 0) == day_error_from(*f, offset as int, k as int),
            decreases 5 - k,
        {
            let i = indexes.0[k];
            let h = HourWeather::from(f, i);
            match h {
                Ok(h) => {
                    assert(day_error_from(*f, offset as int, k as int) == day_error_from(*f, offset as int, k + 1));
                    hours.push(Some(h));
                },
                Err(e) => {
                    assert(!hour_present(*f, hour_indexes(offset as int)[k as int]));
                    assert(day_error_from(*f, offset as int, k as int) == hour_error(*f, hour_indexes(offset as int)[k as int]));
                    return Err(e);
                }
            }
            k = k + 1;
        }
        assert(day_error_from(*f, offset as int, 5) is None);
        Ok(DayWeather { title: title.to_owned(), hours })
    }
}

/// The weather context for local weekday `weekday`, with `time` as its time
/// label: the current conditions and the four day buckets. Fails on the first
/// missing forecast value in reading order, naming it; never fills in a value.
pub fn parse_weather_data(weekday: Weekday, hour: usize, time: String, f: &Forecast) -> (r: Result<WeatherContext, FieldError>)
    ensures
        r is Ok <==> forecast_complete(*f, weekday),
        r matches Ok(c) ==> {
            &&& c.current == current_weather(*f, hour)
            &&& c.time@ == time@
            &&& c.days@.len() == 4
            &&& forall|i: int| 0 <= i < 4 ==> day_matches(*f, #[trigger] c.days@[i], bucket_titles(weekday)[i], 24 * bucket_day_offsets(weekday)[i])
        },
        r matches Err(e) ==> field_missing(*f, e) && Some(e) == forecast_error(*f, weekday),
{
    let current = match HourWeather::current(f, hour) {
        Ok(c) => c,
        Err(e) => return Err(e),
    };
    let buckets = day_buckets(weekday);
    let mut days: Vec<DayWeather> = Vec::new();
    let mut i: usize = 0;
    while i < 4
        invariant
            i <= 4,
            current_error(*f) is None,
            buckets@.len() == 4,
            forall|j: int| 0 <= j < 4 ==> {
                &&& (#[trigger] buckets@[j]).title@ == bucket_titles(weekday)[j]
                &&& buckets@[j].offset == 24 * bucket_day_offsets(weekday)[j]
            },
            days@.len() == i,
            forall|j: int| 0 <= j < i ==> day_present(*f, 24 * #[trigger] bucket_day_offsets(weekday)[j]),
            forall|j: int| 0 <= j < i ==> day_matches(*f, #[trigger] days@[j], bucket_titles(weekday)[j], 24 * bucket_day_offsets(weekday)[j]),
            forecast_error(*f, weekday) == buckets_error_from(*f, weekday, i as int),
        decreases 4 - i,
    {
        let b = &buckets[i];
        assert(b.offset <= 24 * 13);
        match DayWeather::from(f, b.title.as_str(), b.offset) {
            Ok(d) => {
                assert(buckets_error_from(*f, weekday, i as int) == buckets_error_from(*f, weekday, i + 1));
                days.push(d);
            },
            Err(e) => {
                assert(!day_present(*f, 24 * bucket_day_offsets(weekday)[i as int]));
                assert(buckets_error_from(*f, weekday, i as int) == day_error_from(*f, 24 * bucket_day_offsets(weekday)[i as int], 0));
                return Err(e);
            }
        }
        i = i + 1;
    }
    Ok(WeatherContext { current, time, days })
}

/// Where a weather context cannot be made.
pub enum WeatherError {
    /// The time zone is unknown, or the time is out of the zone table's range.
    Timezone,
    Field(FieldError),
}

/// Local wall-clock seconds in zone `tz` at UTC instant `utc`, where the zone
/// is known and the sum fits in an `i64`.
pub open spec fn local_time_of(tz: Seq<char>, utc: int) -> Option<int> {
    match utc_offset_of(tz, utc) {
        Some(o) => if i64::MIN <= utc + o <= i64::MAX {
            Some(utc + o)
        } else {
            None
        },
        None => None,
    }
}

/// Whether the zone, the local time and its label are all defined.
pub open spec fn clock_resolves(tz: Seq<char>, utc: int) -> bool {
    local_time_of(tz, utc) matches Some(l) && time_label_of(l) is Some
}

/// The weather context at UTC instant `now` (seconds since the Unix epoch) in
/// the zone of `config`, from `forecast`: the buckets of the local weekday,
/// labelled with the local time.
pub fn create_weather_context(config: &AppWeatherConfig, now: i64, forecast: &Forecast) -> (r: Result<WeatherContext, WeatherError>)
    ensures
        r matches Err(WeatherError::Timezone) <==> !clock_resolves(config.timezone@, now as int),
        clock_resolves(config.timezone@, now as int) ==> ({
            let local = local_time_of(config.timezone@, now as int).unwrap();
            let d = weekday_from_index(weekday_at(local));
            &&& r is Ok <==> forecast_complete(*forecast, d)
            &&& r matches Ok(c) ==> {
                &&& Some(c.time@) == time_label_of(local)
                &&& c.current == current_weather(*forecast, hour_at(local) as usize)
                &&& c.days@.len() == 4
                &&& forall|i: int| 0 <= i < 4 ==> day_matches(*forecast, #[trigger] c.days@[i], bucket_titles(d)[i], 24 * bucket_day_offsets(d)[i])
            }
            &&& r matches Err(WeatherError::Field(e)) ==> field_missing(*forecast, e) && Some(e) == forecast_error(*forecast, d)
        }),
{
    let offset = match utc_offset(config.timezone.as_str(), now) {
        Some(o) => o,
        None => return Err(WeatherError::Timezone),
    };
    if (offset > 0 && now > i64::MAX - offset as i64) || (offset < 0 && now < i64::MIN - offset as i64) {
        return Err(WeatherError::Timezone);
    }
    let local = now + offset as i64;
    let label = match format_time(local, "%b-%e %l:%M%P") {
        Some(l) => l,
        None => return Err(WeatherError::Timezone),
    };
    let weekday = weekday_at_local_seconds(local);
    let hour = hour_at_local_seconds(local);
    match parse_weather_data(weekday, hour, label, forecast) {
        Ok(c) => Ok(c),
        Err(e) => Err(WeatherError::Field(e)),
    }
}

/// Where the weather provider reads its location.
pub struct AppWeatherConfig {
    pub latitude: String,
    pub longitude: String,
    pub timezone: String,
}

/// The forecast source.
pub open spec fn forecast_base() -> Seq<char> {
    "https://api.open-meteo.com"@
}

pub open spec fn forecast_fields() -> Seq<char> {
    "temperature_2m,rain,precipitation_probability,weather_code"@
}

/// The query of a forecast request for a location: hourly and current
/// values, in Fahrenheit, miles per hour and inches, for fourteen days.
pub open spec fn forecast_query(c: AppWeatherConfig) -> Seq<(Seq<char>, Seq<char>)> {
    seq![
        ("latitude"@, c.latitude@),
        ("longitude"@, c.longitude@),
        ("hourly"@, forecast_fields()),
        ("current"@, forecast_fields()),
        ("timezone"@, c.timezone@),
        ("wind_speed_unit"@, "mph"@),
        ("temperature_unit"@, "fahrenheit"@),
        ("forecast_days"@, "14"@),
        ("precipitation_unit"@, "inch"@),
    ]
}

fn pair(k: &str, v: &str) -> (r: (String, String))
    ensures
        r.0@ == k@ && r.1@ == v@,
{
    (k.to_owned(), v.to_owned())
}

/// The URL that fetches the forecast for `config`'s location.
pub fn forecast_url(config: &AppWeatherConfig) -> (r: Option<String>)
    ensures
        r matches Some(u) ==> url_of(forecast_base(), "/v1/forecast"@, forecast_query(*config)) == Some(u@),
        r is None <==> url_of(forecast_base(), "/v1/forecast"@, forecast_query(*config)) is None,
{
    let fields = "temperature_2m,rain,precipitation_probability,weather_code";
    let query = vec![
        pair("latitude", config.latitude.as_str()),
        pair("longitude", config.longitude.as_str()),
        pair("hourly", fields),
        pair("current", fields),
        pair("timezone", config.timezone.as_str()),
        pair("wind_speed_unit", "mph"),
        pair("temperature_unit", "fahrenheit"),
        pair("forecast_days", "14"),
        pair("precipitation_unit", "inch"),
    ];
    assert(query.deep_view() =~= forecast_query(*config));
    build_url("https://api.open-meteo.com", "/v1/forecast", &query)
}

} // verus!
