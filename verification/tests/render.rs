use walkingpad::Telemetry;
use walkingpad::format_duration;
use walkingpad::render_distance;
use walkingpad::render_speed;
use walkingpad::render_telemetry;
use walkingpad::to_decimal;
use walkingpad::to_two_digits;

#[test]
fn decimal_rendering() {
    assert_eq!(to_decimal(0), "0");
    assert_eq!(to_decimal(7), "7");
    assert_eq!(to_decimal(10), "10");
    assert_eq!(to_decimal(66051), "66051");
    assert_eq!(to_decimal(u32::MAX), "4294967295");
}

#[test]
fn two_digit_rendering_is_zero_padded() {
    assert_eq!(to_two_digits(0), "00");
    assert_eq!(to_two_digits(9), "09");
    assert_eq!(to_two_digits(59), "59");
}

#[test]
fn duration_components() {
    // h = t/3600, mm = (t/60) mod 60 zero-padded, ss = t mod 60 zero-padded.
    assert_eq!(format_duration(0), "0:00:00");
    assert_eq!(format_duration(14), "0:00:14");
    assert_eq!(format_duration(59), "0:00:59");
    assert_eq!(format_duration(60), "0:01:00");
    assert_eq!(format_duration(3599), "0:59:59");
    assert_eq!(format_duration(3600), "1:00:00");
    assert_eq!(format_duration(3661), "1:01:01");
    assert_eq!(format_duration(86399), "23:59:59");
    assert_eq!(format_duration(16777215), "4660:20:15");
}

#[test]
fn duration_matches_formulas() {
    for t in [0u32, 1, 59, 60, 3599, 3600, 7325, 86400, 123456] {
        let rendered = format_duration(t);
        let expected = format!("{}:{:02}:{:02}", t / 3600, (t / 60) % 60, t % 60);
        assert_eq!(rendered, expected);
    }
}

#[test]
fn speed_rendering_is_deci_km_h() {
    assert_eq!(render_speed(0), "0.0");
    assert_eq!(render_speed(100), "10.0");
    assert_eq!(render_speed(105), "10.5");
    assert_eq!(render_speed(255), "25.5");
}

#[test]
fn distance_rendering_is_centimeters_as_meters() {
    assert_eq!(render_distance(0), "0.000");
    assert_eq!(render_distance(5), "0.050");
    assert_eq!(render_distance(123), "1.230");
    assert_eq!(render_distance(1048579), "10485.790");
}

#[test]
fn telemetry_line() {
    let t = Telemetry { speed: 100, time: 14, distance: 1048579, steps: 2097157 };
    assert_eq!(
        render_telemetry(&t),
        "Speed: 10.0 km/h, Time: 0:00:14, Distance: 10485.790 m, Steps: 2097157"
    );
}
