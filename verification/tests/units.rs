use relative_locktime::units::MAX_SECONDS;
use relative_locktime::{Height, Time};

#[test]
fn height_keeps_its_value() {
    for raw in [0u16, 1, 10, 255, 256, 65534, 65535] {
        assert_eq!(Height::from(raw).value(), raw);
    }
}

#[test]
fn time_keeps_its_value() {
    for raw in [0u16, 1, 70, 255, 256, 65534, 65535] {
        assert_eq!(Time::from_512_second_intervals(raw).value(), raw);
    }
}

#[test]
fn height_bounds() {
    assert_eq!(Height::zero().value(), 0);
    assert_eq!(Height::min_value().value(), 0);
    assert_eq!(Height::max_value().value(), 65535);
    assert_eq!(Height::default(), Height::zero());
}

#[test]
fn time_bounds() {
    assert_eq!(Time::zero().value(), 0);
    assert_eq!(Time::min_value().value(), 0);
    assert_eq!(Time::max_value().value(), 65535);
    assert_eq!(Time::default(), Time::zero());
}

#[test]
fn heights_are_ordered_by_value() {
    let counts = [0u16, 1, 9, 10, 11, 65535];
    for &a in counts.iter() {
        for &b in counts.iter() {
            let (x, y) = (Height::from(a), Height::from(b));
            assert_eq!(x < y, a < b);
            assert_eq!(x <= y, a <= b);
            assert_eq!(x > y, a > b);
            assert_eq!(x >= y, a >= b);
            assert_eq!(x == y, a == b);
            assert_eq!(x.partial_cmp(&y), a.partial_cmp(&b));
            assert_eq!(x.cmp(&y), a.cmp(&b));
        }
    }
}

#[test]
fn times_are_ordered_by_value() {
    let counts = [0u16, 1, 69, 70, 71, 65535];
    for &a in counts.iter() {
        for &b in counts.iter() {
            let (x, y) = (Time::from_512_second_intervals(a), Time::from_512_second_intervals(b));
            assert_eq!(x < y, a < b);
            assert_eq!(x <= y, a <= b);
            assert_eq!(x > y, a > b);
            assert_eq!(x >= y, a >= b);
            assert_eq!(x == y, a == b);
            assert_eq!(x.partial_cmp(&y), a.partial_cmp(&b));
            assert_eq!(x.cmp(&y), a.cmp(&b));
        }
    }
}

#[test]
fn largest_seconds_are_65535_whole_intervals() {
    assert_eq!(MAX_SECONDS, 33_553_920);
    assert_eq!(u64::from(MAX_SECONDS), 65535 * 512);
}

#[test]
fn seconds_round_up_to_whole_intervals() {
    assert_eq!(Time::from_seconds_ceil(0), Ok(Time::from_512_second_intervals(0)));
    assert_eq!(Time::from_seconds_ceil(1), Ok(Time::from_512_second_intervals(1)));
    assert_eq!(Time::from_seconds_ceil(511), Ok(Time::from_512_second_intervals(1)));
    assert_eq!(Time::from_seconds_ceil(512), Ok(Time::from_512_second_intervals(1)));
    assert_eq!(Time::from_seconds_ceil(513), Ok(Time::from_512_second_intervals(2)));
    assert_eq!(Time::from_seconds_ceil(1024), Ok(Time::from_512_second_intervals(2)));
    assert_eq!(Time::from_seconds_ceil(1025), Ok(Time::from_512_second_intervals(3)));
    assert_eq!(Time::from_seconds_ceil(35_840), Ok(Time::from_512_second_intervals(70)));
}

#[test]
fn seconds_up_to_the_limit_convert() {
    assert_eq!(
        Time::from_seconds_ceil(65534 * 512 + 1),
        Ok(Time::from_512_second_intervals(65535))
    );
    assert_eq!(
        Time::from_seconds_ceil(33_553_919),
        Ok(Time::from_512_second_intervals(65535))
    );
    assert_eq!(
        Time::from_seconds_ceil(33_553_920),
        Ok(Time::from_512_second_intervals(65535))
    );
    assert_eq!(Time::from_seconds_ceil(MAX_SECONDS), Ok(Time::max_value()));
}

#[test]
fn seconds_above_the_limit_overflow() {
    for seconds in [33_553_921u32, 33_554_431, 33_554_432, 33_554_433, 1 << 31, u32::MAX - 511,
        u32::MAX - 510, u32::MAX]
    {
        let error = Time::from_seconds_ceil(seconds).unwrap_err();
        assert_eq!(error.seconds(), seconds);
    }
}

#[test]
fn converted_time_is_the_least_that_covers_the_seconds() {
    let mut seconds: u32 = 0;
    while seconds <= MAX_SECONDS {
        let intervals = u64::from(Time::from_seconds_ceil(seconds).unwrap().value());
        assert!(intervals * 512 >= u64::from(seconds));
        assert!(intervals == 0 || (intervals - 1) * 512 < u64::from(seconds));
        assert_eq!(intervals, (u64::from(seconds) + 511) / 512);
        seconds += 4093;
    }
}

#[test]
fn overflow_error_is_cloned_whole() {
    let error = Time::from_seconds_ceil(40_000_000).unwrap_err();
    let copy = error.clone();
    assert_eq!(copy, error);
    assert_eq!(copy.seconds(), 40_000_000);
    assert_ne!(copy, Time::from_seconds_ceil(40_000_001).unwrap_err());
}
