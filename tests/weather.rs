use serde_json::Number;
use trmnl_server::weather::{
    create_weather_context, day_buckets, forecast_url, hour_at_local_seconds, parse_weather_data, weather_code_to_icon,
    weekday_at_local_seconds, AppWeatherConfig, DayWeather, FieldError, Forecast, ForecastField,
    HourIndexes, HourWeather, WeatherError, WeatherIcon, Weekday,
};

fn full_forecast(hours: usize) -> Forecast {
    Forecast {
        current_weather_code: Some(3),
        current_temperature: Some(Number::from(52)),
        current_precipitation_probability: Some(Number::from(40)),
        hourly_weather_code: (0..hours).map(|i| Some((i % 100) as u64)).collect(),
        hourly_temperature: (0..hours).map(|i| Some(Number::from(i as u64))).collect(),
        hourly_precipitation_probability: (0..hours).map(|i| Some(Number::from((i % 101) as u64))).collect(),
    }
}

fn titles(w: Weekday) -> Vec<(String, usize)> {
    day_buckets(w).into_iter().map(|b| (b.title, b.offset)).collect()
}

#[test]
fn it_should_convert_weather_code_to_icon() {
    assert_eq!(weather_code_to_icon(0), WeatherIcon::Sunny);
}

#[test]
fn weather_codes_map_to_icons_with_fallback() {
    assert_eq!(weather_code_to_icon(2), WeatherIcon::PartlyCloudyDay);
    assert_eq!(weather_code_to_icon(3), WeatherIcon::Cloudy);
    assert_eq!(weather_code_to_icon(48), WeatherIcon::Foggy);
    assert_eq!(weather_code_to_icon(80), WeatherIcon::RainyLight);
    assert_eq!(weather_code_to_icon(63), WeatherIcon::Rainy);
    assert_eq!(weather_code_to_icon(82), WeatherIcon::RainyHeavy);
    assert_eq!(weather_code_to_icon(66), WeatherIcon::AcUnit);
    assert_eq!(weather_code_to_icon(57), WeatherIcon::SevereCold);
    assert_eq!(weather_code_to_icon(85), WeatherIcon::WeatherSnowy);
    assert_eq!(weather_code_to_icon(73), WeatherIcon::Snowing);
    assert_eq!(weather_code_to_icon(86), WeatherIcon::SnowingHeavy);
    assert_eq!(weather_code_to_icon(77), WeatherIcon::Grain);
    assert_eq!(weather_code_to_icon(99), WeatherIcon::Thunderstorm);
    assert_eq!(weather_code_to_icon(4), WeatherIcon::Help);
    assert_eq!(weather_code_to_icon(u64::MAX), WeatherIcon::Help);
    assert_eq!(WeatherIcon::PartlyCloudyDay.name(), "partly_cloudy_day");
    assert_eq!(WeatherIcon::Help.name(), "help");
}

#[test]
fn friday_buckets_show_same_week_weekend() {
    assert_eq!(
        titles(Weekday::Fri),
        vec![
            ("Today".to_string(), 0),
            ("Tomorrow".to_string(), 24),
            ("Sat".to_string(), 24),
            ("Sun".to_string(), 48)
        ]
    );
}

#[test]
fn weekend_buckets_roll_to_next_week() {
    assert_eq!(
        titles(Weekday::Sat),
        vec![
            ("Today".to_string(), 0),
            ("Tomorrow".to_string(), 24),
            ("Next Sat".to_string(), 168),
            ("Next Sun".to_string(), 192)
        ]
    );
    let sun = titles(Weekday::Sun);
    assert_eq!(sun[2], ("Next Sat".to_string(), 312));
    assert_eq!(sun[3], ("Next Sun".to_string(), 168));
}

#[test]
fn midweek_buckets_show_this_weekend() {
    let mon = titles(Weekday::Mon);
    assert_eq!(mon[2], ("Sat".to_string(), 120));
    assert_eq!(mon[3], ("Sun".to_string(), 144));
    let thu = titles(Weekday::Thu);
    assert_eq!(thu[2], ("Sat".to_string(), 48));
    assert_eq!(thu[3], ("Sun".to_string(), 72));
}

#[test]
fn hour_indexes_add_offset() {
    assert_eq!(HourIndexes::new(24).0, [31, 34, 36, 39, 42]);
    assert_eq!(HourIndexes::new(0).0, [7, 10, 12, 15, 18]);
}

#[test]
fn weekday_of_local_seconds() {
    assert_eq!(weekday_at_local_seconds(0), Weekday::Thu);
    assert_eq!(weekday_at_local_seconds(-1), Weekday::Wed);
    assert_eq!(weekday_at_local_seconds(1234567890), Weekday::Fri);
    assert_eq!(weekday_at_local_seconds(-86400 * 3), Weekday::Mon);
    assert_eq!(weekday_at_local_seconds(-86400 * 3 - 1), Weekday::Sun);
}

#[test]
fn parses_complete_forecast() {
    let f = full_forecast(14 * 24);
    let ctx = parse_weather_data(Weekday::Sat, 9, "label".to_string(), &f)
        .unwrap_or_else(|_| panic!("complete forecast"));
    assert_eq!(ctx.time, "label");
    assert_eq!(ctx.current.icon, WeatherIcon::Cloudy);
    assert_eq!(ctx.current.temperature, Number::from(52));
    assert_eq!(ctx.current.precipitation_probability, Number::from(40));
    assert_eq!(ctx.current.hour, 9);
    assert_eq!(ctx.days.len(), 4);
    let titles: Vec<&str> = ctx.days.iter().map(|d: &DayWeather| d.title.as_str()).collect();
    assert_eq!(titles, vec!["Today", "Tomorrow", "Next Sat", "Next Sun"]);
    let h: &HourWeather = ctx.days[1].hours[0].as_ref().unwrap();
    assert_eq!(h.hour, 7);
    assert_eq!(h.temperature, Number::from(31));
    assert_eq!(h.icon, WeatherIcon::Help);
    let h: &HourWeather = ctx.days[2].hours[4].as_ref().unwrap();
    assert_eq!(h.hour, 18);
    assert_eq!(h.temperature, Number::from(186));
    assert_eq!(h.precipitation_probability, Number::from(186 % 101));
}

#[test]
fn missing_forecast_value_is_reported() {
    let mut f = full_forecast(14 * 24);
    f.hourly_temperature[34] = None;
    match parse_weather_data(Weekday::Mon, 0, String::new(), &f) {
        Err(e) => assert_eq!(e, FieldError { field: ForecastField::HourlyTemperature, index: 34 }),
        Ok(_) => panic!("a value is missing"),
    }
    let short = full_forecast(100);
    match parse_weather_data(Weekday::Mon, 0, String::new(), &short) {
        Err(e) => assert_eq!(e, FieldError { field: ForecastField::HourlyWeatherCode, index: 127 }),
        Ok(_) => panic!("the forecast is short"),
    }
    let mut no_current = full_forecast(14 * 24);
    no_current.current_temperature = None;
    match parse_weather_data(Weekday::Mon, 0, String::new(), &no_current) {
        Err(e) => assert_eq!(e, FieldError { field: ForecastField::CurrentTemperature, index: 0 }),
        Ok(_) => panic!("current temperature is missing"),
    }
    let mut no_rain = full_forecast(14 * 24);
    no_rain.current_precipitation_probability = None;
    match parse_weather_data(Weekday::Mon, 0, String::new(), &no_rain) {
        Err(e) => assert_eq!(e, FieldError { field: ForecastField::CurrentPrecipitationProbability, index: 0 }),
        Ok(_) => panic!("current precipitation probability is missing"),
    }
}

#[test]
fn weather_context_in_a_time_zone() {
    let config = AppWeatherConfig {
        latitude: "45.5234".to_string(),
        longitude: "-122.6762".to_string(),
        timezone: "UTC".to_string(),
    };
    let f = full_forecast(14 * 24);
    let ctx = create_weather_context(&config, 1234567890, &f).unwrap_or_else(|_| panic!("context"));
    assert_eq!(ctx.time, "Feb-13 11:31pm");
    assert_eq!(ctx.current.hour, 23);
    assert_eq!(ctx.days[2].title, "Sat");
    let la = AppWeatherConfig { timezone: "America/Los_Angeles".to_string(), ..config };
    let ctx = create_weather_context(&la, 1234567890, &f).unwrap_or_else(|_| panic!("context"));
    assert_eq!(ctx.time, "Feb-13  3:31pm");
    assert_eq!(ctx.current.hour, 15);
    let nowhere = AppWeatherConfig { timezone: "Nowhere/Nothing".to_string(), ..la };
    assert!(matches!(create_weather_context(&nowhere, 1234567890, &f), Err(WeatherError::Timezone)));
}

#[test]
fn forecast_url_for_a_location() {
    let config = AppWeatherConfig {
        latitude: "45.5234".to_string(),
        longitude: "-122.6762".to_string(),
        timezone: "America/Los_Angeles".to_string(),
    };
    assert_eq!(
        forecast_url(&config).unwrap(),
        "https://api.open-meteo.com/v1/forecast?latitude=45.5234&longitude=-122.6762&hourly=temperature_2m%2Crain%2Cprecipitation_probability%2Cweather_code&current=temperature_2m%2Crain%2Cprecipitation_probability%2Cweather_code&timezone=America%2FLos_Angeles&wind_speed_unit=mph&temperature_unit=fahrenheit&forecast_days=14&precipitation_unit=inch"
    );
}

#[test]
fn hour_of_local_seconds() {
    assert_eq!(hour_at_local_seconds(0), 0);
    assert_eq!(hour_at_local_seconds(3599), 0);
    assert_eq!(hour_at_local_seconds(3600 * 25), 1);
    assert_eq!(hour_at_local_seconds(-1), 23);
    assert_eq!(hour_at_local_seconds(-3601), 22);
    assert_eq!(hour_at_local_seconds(-86400), 0);
}
