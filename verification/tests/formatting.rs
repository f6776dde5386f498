//! Unit-formatted rendering and the two-line report.

use hashd_params::config::{CmdDefaults, HashdParamsBench};
use hashd_params::job::format_result;
use hashd_params::result::EstimationResult;
use hashd_params::units::{format_duration, format_frac3, format_size, u64_to_dec};

#[test]
fn sizes_scale_against_binary_units() {
    assert_eq!(format_size(0), "0");
    assert_eq!(format_size(1023), "1023");
    assert_eq!(format_size(1024), "1.0K");
    assert_eq!(format_size(1536), "1.5K");
    assert_eq!(format_size(1048576), "1.0M");
    assert_eq!(format_size(1258291), "1.1M");
    assert_eq!(format_size(17179869184), "16.0G");
    assert_eq!(format_size(1099511627776), "1.0T");
    assert_eq!(format_size(u64::MAX), "15.9E");
}

#[test]
fn durations_scale_against_microseconds() {
    assert_eq!(format_duration(0), "0u");
    assert_eq!(format_duration(500), "500u");
    assert_eq!(format_duration(1500), "1.5m");
    assert_eq!(format_duration(999999), "999.9m");
    assert_eq!(format_duration(2500000), "2.5s");
}

#[test]
fn fractions_render_to_three_places() {
    assert_eq!(format_frac3(0), "0.000");
    assert_eq!(format_frac3(7), "0.007");
    assert_eq!(format_frac3(77), "0.077");
    assert_eq!(format_frac3(250), "0.250");
    assert_eq!(format_frac3(1000), "1.000");
}

#[test]
fn decimal_rendering_is_plain() {
    assert_eq!(u64_to_dec(0), "0");
    assert_eq!(u64_to_dec(42), "42");
    assert_eq!(u64_to_dec(18446744073709551615), "18446744073709551615");
}

#[test]
fn report_contains_each_formatted_field() {
    let dfl = CmdDefaults { balloon_size: 1048576, log_rate: 1100794 };
    let c = HashdParamsBench {}.parse(&Vec::new(), &dfl).unwrap();
    let r = EstimationResult {
        hash_size: 1258291,
        max_request_rate: 2000,
        memory_size: 17179869184,
        memory_fraction_milli: 250,
        chunk_size: 25,
    };
    let out = format_result(&c, &r);
    assert!(out.contains("balloon_size=1.0M"));
    assert!(out.contains("log_bps=1.0M"));
    assert!(out.contains("hash_size=1.1M"));
    assert!(out.contains("rps_max=2000"));
    assert!(out.contains("mem_size=16.0G"));
    assert!(out.contains("mem_frac=0.250"));
    assert!(out.contains("chunk_pages=25"));
}

#[test]
fn report_has_the_expected_shape() {
    let dfl = CmdDefaults { balloon_size: 1048576, log_rate: 1100794 };
    let c = HashdParamsBench {}.parse(&Vec::new(), &dfl).unwrap();
    let r = EstimationResult {
        hash_size: 1258291,
        max_request_rate: 2000,
        memory_size: 17179869184,
        memory_fraction_milli: 250,
        chunk_size: 25,
    };
    assert_eq!(
        format_result(&c, &r),
        "Params: balloon_size=1.0M log_bps=1.0M\n\
         \nResult: hash_size=1.1M rps_max=2000 mem_size=16.0G mem_frac=0.250 chunk_pages=25\n"
    );
}
