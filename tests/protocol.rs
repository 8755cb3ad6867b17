use meterreader::decode::{MeterSampleValue, MeterSectionInfo, MeterValue};
use meterreader::dump::{append_samples, sample_timestamps};
use meterreader::duration::{parse_duration, DurationError};
use meterreader::frame::{
    build_read_section_info_command, build_read_sample_block_command, build_set_time_command,
    build_set_time_command_now, gen_cmd, is_ok_response,
};
use meterreader::gatt::{
    select_characteristics, ADVERTISEMENT_SERVICE_UUID, READ_CHAR_UUID, SERVICE_UUID,
    WRITE_CHAR_UUID,
};
use meterreader::plan::plan_offsets;

/// A temperature written in degrees, as whole tenths of a degree.
fn tenths(degrees: f32) -> i16 {
    (degrees * 10.0).round() as i16
}

fn sample(temperature: f32, humidity: u8) -> MeterSampleValue {
    MeterSampleValue {
        temperature: tenths(temperature),
        humidity,
    }
}

fn info(data_length: u16, interval: u16) -> MeterSectionInfo {
    MeterSectionInfo {
        start_time: 1000,
        end_time: 2000,
        data_length,
        interval,
    }
}

#[test]
fn main_parses_service_data() {
    let service_data = vec![105, 0, 228, 9, 152, 40];
    let result = MeterValue::from_data(&service_data);
    assert_eq!(
        result,
        Some(MeterValue {
            temperature: tenths(24.9),
            humidity: 40,
            battery: 100
        })
    );
}

#[test]
fn lib_parses_service_data() {
    let service_data = vec![105, 0, 228, 9, 152, 40];
    let result = MeterValue::from_data(&service_data);
    assert_eq!(
        result,
        Some(MeterValue {
            temperature: tenths(24.9),
            humidity: 40,
            battery: 100
        })
    );
}

#[test]
fn main_parses_sample_info() {
    let response = vec![1, 152, 40, 119, 152, 40, 152, 40, 120, 152, 40];
    let result = MeterSampleValue::from_response(&response);
    assert_eq!(
        result,
        Some(
            vec![(24.7, 40), (24.7, 40), (24.7, 40), (24.8, 40)]
                .into_iter()
                .map(|(temperature, humidity)| sample(temperature, humidity))
                .collect()
        )
    );
}

#[test]
fn lib_parses_sample_info() {
    let response = vec![1, 152, 40, 119, 152, 40, 152, 40, 120, 152, 40];
    let result = MeterSampleValue::from_response(&response);
    assert_eq!(
        result,
        Some(
            vec![(24.7, 40), (24.7, 40), (24.7, 40), (24.8, 40)]
                .into_iter()
                .map(|(temperature, humidity)| sample(temperature, humidity))
                .collect()
        )
    );
}

#[test]
fn main_parse_section_info() {
    let response = vec![1, 97, 160, 191, 231, 97, 162, 162, 63, 4, 6, 0, 120];
    let result = MeterSectionInfo::from_response(&response);
    assert_eq!(
        result,
        Some(MeterSectionInfo {
            start_time: 1637924839,
            end_time: 1638048319,
            interval: 120,
            data_length: 1030
        })
    );
}

#[test]
fn parse_section_info() {
    let response = vec![1, 97, 160, 191, 231, 97, 162, 162, 63, 4, 6, 0, 120];
    let result = MeterSectionInfo::from_response(&response);
    assert_eq!(
        result,
        Some(MeterSectionInfo {
            start_time: 1637924839,
            end_time: 1638048319,
            interval: 120,
            data_length: 1030
        })
    );
}

#[test]
fn lib_parse_section_info() {
    let response = vec![1, 97, 160, 191, 231, 97, 162, 162, 63, 4, 6, 0, 120];
    let result = MeterSectionInfo::from_response(&response);
    assert_eq!(
        result,
        Some(MeterSectionInfo {
            start_time: 1_637_924_839,
            end_time: 1_638_048_319,
            interval: 120,
            data_length: 1030
        })
    );
}

#[test]
fn main_parses_durations() {
    assert_eq!(
        parse_duration("1d"),
        Ok(chrono::Duration::days(1).num_minutes() as u64)
    );
    assert_eq!(
        parse_duration("5m"),
        Ok(chrono::Duration::minutes(5).num_minutes() as u64)
    );
    assert_eq!(
        parse_duration("42h"),
        Ok(chrono::Duration::hours(42).num_minutes() as u64)
    );
}

#[test]
fn durations_in_minutes() {
    assert_eq!(parse_duration("1d"), Ok(1440));
    assert_eq!(parse_duration("5m"), Ok(5));
    assert_eq!(parse_duration("42h"), Ok(2520));
    assert_eq!(parse_duration("007m"), Ok(7));
}

#[test]
fn duration_errors() {
    assert_eq!(parse_duration(""), Err(DurationError::InvalidNumber));
    assert_eq!(parse_duration("h"), Err(DurationError::InvalidNumber));
    assert_eq!(parse_duration("-5m"), Err(DurationError::InvalidNumber));
    assert_eq!(
        parse_duration("99999999999999999999m"),
        Err(DurationError::InvalidNumber)
    );
    assert_eq!(parse_duration("5"), Err(DurationError::InvalidTimeUnit));
    assert_eq!(parse_duration("5s"), Err(DurationError::InvalidTimeUnit));
    assert_eq!(parse_duration("5mm"), Err(DurationError::InvalidTimeUnit));
    assert_eq!(parse_duration("5 m"), Err(DurationError::InvalidTimeUnit));
    assert_eq!(parse_duration("5é"), Err(DurationError::InvalidTimeUnit));
    assert_eq!(
        parse_duration("9223372036854775807m"),
        Ok(9223372036854775807)
    );
    assert_eq!(
        parse_duration("9223372036854775807h"),
        Err(DurationError::TooLong)
    );
    assert_eq!(
        parse_duration("6405119470038039d"),
        Err(DurationError::TooLong)
    );
    assert_eq!(
        parse_duration("6405119470038038d"),
        Ok(6405119470038038 * 1440)
    );
}

#[test]
fn section_info_rejects_short_or_failed_responses() {
    let good = vec![1, 97, 160, 191, 231, 97, 162, 162, 63, 4, 6, 0, 120];
    assert_eq!(MeterSectionInfo::from_response(&good[..12]), None);
    assert_eq!(MeterSectionInfo::from_response(&[]), None);
    let mut failed = good.clone();
    failed[0] = 0;
    assert_eq!(MeterSectionInfo::from_response(&failed), None);
    let mut longer = good.clone();
    longer.push(9);
    assert_eq!(
        MeterSectionInfo::from_response(&longer),
        MeterSectionInfo::from_response(&good)
    );
}

#[test]
fn section_info_accepts_odd_fields() {
    let response = vec![1, 0, 0, 0, 9, 0, 0, 0, 3, 255, 255, 0, 0];
    assert_eq!(
        MeterSectionInfo::from_response(&response),
        Some(MeterSectionInfo {
            start_time: 9,
            end_time: 3,
            data_length: 65535,
            interval: 0
        })
    );
}

#[test]
fn sample_block_rejects_bad_shapes() {
    assert_eq!(MeterSampleValue::from_response(&[]), None);
    assert_eq!(MeterSampleValue::from_response(&[1, 152, 40, 119, 152]), None);
    assert_eq!(
        MeterSampleValue::from_response(&[0, 152, 40, 119, 152, 40]),
        None
    );
    assert_eq!(
        MeterSampleValue::from_response(&[1, 152, 40, 119, 152, 40, 1]),
        None
    );
    assert_eq!(
        MeterSampleValue::from_response(&[1, 152, 40, 119, 152, 40, 1, 2, 3, 4]),
        None
    );
}

#[test]
fn sample_block_length_is_two_per_window() {
    for windows in 1..20usize {
        let mut response = vec![1u8];
        response.extend(std::iter::repeat(0x80u8).take(5 * windows));
        let samples = MeterSampleValue::from_response(&response).unwrap();
        assert_eq!(samples.len(), 2 * (response.len() - 1) / 5);
    }
}

#[test]
fn sample_block_signs_and_nibbles() {
    // Sign bit clear means below zero; the shared byte carries 0xF and 0x3.
    let response = vec![1, 0x05, 0xc1, 0xf3, 0x80, 0xff];
    assert_eq!(
        MeterSampleValue::from_response(&response),
        Some(vec![
            MeterSampleValue {
                temperature: -65,
                humidity: 65
            },
            MeterSampleValue {
                temperature: 3,
                humidity: 127
            },
        ])
    );
}

#[test]
fn live_value_rejects_bad_payloads() {
    assert_eq!(MeterValue::from_data(&[105, 0, 228, 9, 152]), None);
    assert_eq!(MeterValue::from_data(&[105, 0, 228, 9, 152, 40, 0]), None);
    assert_eq!(MeterValue::from_data(&[104, 0, 228, 9, 152, 40]), None);
    assert_eq!(MeterValue::from_data(&[]), None);
}

#[test]
fn live_value_below_zero() {
    assert_eq!(
        MeterValue::from_data(&[105, 0, 0x85, 0x07, 0x02, 0xb2]),
        Some(MeterValue {
            temperature: -27,
            humidity: 50,
            battery: 5
        })
    );
}

#[test]
fn frames_have_marker_selector_and_opcode() {
    assert_eq!(gen_cmd(5, 0), vec![0x57, 0, 5]);
    assert_eq!(gen_cmd(15, 2), vec![0x57, 0, 15, 0, 0]);
    assert_eq!(gen_cmd(16, 1), vec![0x57, 0x0f, 16, 0]);
    assert_eq!(build_read_section_info_command(), vec![0x57, 0x0f, 59, 0]);
    assert_eq!(
        build_read_sample_block_command(0x0102),
        vec![0x57, 0x0f, 60, 0, 1, 2, 6]
    );
    assert_eq!(
        build_read_sample_block_command(1026),
        vec![0x57, 0x0f, 60, 0, 4, 2, 6]
    );
}

#[test]
fn set_time_frame_is_big_endian() {
    assert_eq!(
        build_set_time_command(1637924839),
        vec![0x57, 0, 5, 3, 0, 0, 0, 0, 0, 97, 160, 191, 231]
    );
    assert_eq!(
        build_set_time_command(-2),
        vec![0x57, 0, 5, 3, 0, 255, 255, 255, 255, 255, 255, 255, 254]
    );
}

#[test]
fn set_time_now_carries_the_clock() {
    let cmd = build_set_time_command_now();
    assert_eq!(cmd.len(), 13);
    assert_eq!(&cmd[..5], &[0x57, 0, 5, 3, 0]);
    let mut t = [0u8; 8];
    t.copy_from_slice(&cmd[5..]);
    let timestamp = i64::from_be_bytes(t);
    assert!(timestamp > 1_600_000_000);
}

#[test]
fn ok_responses() {
    assert!(is_ok_response(&[1]));
    assert!(is_ok_response(&[1, 0, 0]));
    assert!(!is_ok_response(&[]));
    assert!(!is_ok_response(&[2, 1]));
}

#[test]
fn plan_without_duration_covers_whole_blocks() {
    assert_eq!(
        plan_offsets(&info(30, 120), None),
        Some(vec![0, 6, 12, 18, 24])
    );
    assert_eq!(
        plan_offsets(&info(35, 120), None),
        Some(vec![0, 6, 12, 18, 24])
    );
    assert_eq!(plan_offsets(&info(5, 120), None), Some(vec![]));
    assert_eq!(plan_offsets(&info(0, 0), None), Some(vec![]));
    let all = plan_offsets(&info(1030, 120), None).unwrap();
    assert_eq!(all.len(), 171);
    assert_eq!(all[170], 1020);
    let full = plan_offsets(&info(65535, 1), None).unwrap();
    assert_eq!(full.len(), 10922);
    assert_eq!(*full.last().unwrap(), 65526);
}

#[test]
fn plan_with_duration_is_a_suffix() {
    // 3600 s at 120 s: 30 samples, 5 blocks.
    let all = plan_offsets(&info(1030, 120), None).unwrap();
    let last = plan_offsets(&info(1030, 120), Some(3600)).unwrap();
    assert_eq!(last, all[all.len() - 5..].to_vec());
    assert_eq!(last, vec![996, 1002, 1008, 1014, 1020]);
    // 31 samples need 6 blocks.
    assert_eq!(
        plan_offsets(&info(1030, 120), Some(31 * 120)).unwrap().len(),
        6
    );
    // Samples are rounded down before blocks are rounded up.
    assert_eq!(
        plan_offsets(&info(1030, 120), Some(119)).unwrap(),
        Vec::<u16>::new()
    );
    assert_eq!(
        plan_offsets(&info(1030, 120), Some(6 * 120 + 119)).unwrap().len(),
        1
    );
    // Capped at the whole store.
    assert_eq!(plan_offsets(&info(30, 1), Some(u64::MAX)).unwrap(), all[..5].to_vec());
    assert_eq!(plan_offsets(&info(30, 1), Some(0)).unwrap(), Vec::<u16>::new());
}

#[test]
fn plan_with_duration_and_zero_interval_is_refused() {
    assert_eq!(plan_offsets(&info(1030, 0), Some(60)), None);
    assert!(plan_offsets(&info(1030, 0), None).is_some());
}

#[test]
fn appended_samples_keep_order_and_skip_bad_blocks() {
    let mut samples = vec![sample(1.0, 1)];
    append_samples(&mut samples, &[1, 152, 40, 119, 152, 40]);
    append_samples(&mut samples, &[0, 152, 40, 119, 152, 40]);
    append_samples(&mut samples, &[1, 152, 40, 120, 152, 40]);
    assert_eq!(
        samples,
        vec![
            sample(1.0, 1),
            sample(24.7, 40),
            sample(24.7, 40),
            sample(24.7, 40),
            sample(24.8, 40)
        ]
    );
}

#[test]
fn sample_times_walk_forward_from_start() {
    let section = MeterSectionInfo {
        start_time: 1637924839,
        end_time: 1638048319,
        data_length: 10,
        interval: 120,
    };
    assert_eq!(
        sample_timestamps(&section, 3),
        vec![
            1637924839 + 7 * 120,
            1637924839 + 8 * 120,
            1637924839 + 9 * 120
        ]
    );
    assert_eq!(sample_timestamps(&section, 0), Vec::<i64>::new());
}

#[test]
fn channel_needs_both_characteristics_of_the_service() {
    let other = 0x1234u128;
    assert_eq!(select_characteristics(&[]), None);
    assert_eq!(
        select_characteristics(&[(SERVICE_UUID, READ_CHAR_UUID)]),
        None
    );
    assert_eq!(
        select_characteristics(&[
            (SERVICE_UUID, other),
            (SERVICE_UUID, WRITE_CHAR_UUID),
            (SERVICE_UUID, READ_CHAR_UUID),
        ]),
        Some((2, 1))
    );
    assert_eq!(
        select_characteristics(&[
            (other, READ_CHAR_UUID),
            (SERVICE_UUID, WRITE_CHAR_UUID),
        ]),
        None
    );
    assert_eq!(
        select_characteristics(&[
            (SERVICE_UUID, READ_CHAR_UUID),
            (SERVICE_UUID, WRITE_CHAR_UUID),
            (SERVICE_UUID, READ_CHAR_UUID),
            (ADVERTISEMENT_SERVICE_UUID, WRITE_CHAR_UUID),
        ]),
        Some((2, 1))
    );
}
