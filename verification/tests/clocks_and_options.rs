use castled_engine::config::{
    option_index, same_text, Config, OptionDescriptor, OptionKind, SetOption, OPTION_COUNT,
};
use castled_engine::position::Position;
use castled_engine::search::params::SearchParams;
use castled_engine::text::{
    chars_of, join_with_blank, parse_signed_in, parse_unsigned_in, signed_text,
};
use castled_engine::time_control::time_controller::{
    deadline_passed, millis_between, soft_stop, TimeController,
};
use castled_engine::time_control::time_mode::TimeMode;

#[test]
fn numbers_as_text() {
    assert_eq!(signed_text(0), "0");
    assert_eq!(signed_text(7), "7");
    assert_eq!(signed_text(10), "10");
    assert_eq!(signed_text(1234567890), "1234567890");
    assert_eq!(signed_text(-1), "-1");
    assert_eq!(signed_text(-100000), "-100000");
    assert_eq!(signed_text(99999), "99999");
    assert_eq!(signed_text(i128::MIN), i128::MIN.to_string());
    assert_eq!(signed_text(i128::MAX), i128::MAX.to_string());
}

#[test]
fn text_as_numbers() {
    let unsigned = |text: &str| parse_unsigned_in(text, u128::MAX);
    let signed = |text: &str| parse_signed_in(text, i128::MIN, i128::MAX);
    assert_eq!(unsigned("0"), Some(0));
    assert_eq!(unsigned("0012"), Some(12));
    assert_eq!(unsigned("+5"), Some(5));
    assert_eq!(unsigned("-5"), None);
    assert_eq!(unsigned(""), None);
    assert_eq!(unsigned("12a"), None);
    assert_eq!(unsigned(" 12"), None);
    assert_eq!(unsigned("340282366920938463463374607431768211455"), Some(u128::MAX));
    assert_eq!(unsigned("340282366920938463463374607431768211456"), None);
    assert_eq!(signed("-5"), Some(-5));
    assert_eq!(signed("5"), Some(5));
    assert_eq!(signed("--5"), None);
    assert_eq!(signed("1.5"), None);
}

#[test]
fn numbers_are_read_within_their_range() {
    assert_eq!(parse_unsigned_in("255", 255), Some(255));
    assert_eq!(parse_unsigned_in("256", 255), None);
    assert_eq!(parse_unsigned_in("x", 255), None);
    assert_eq!(parse_signed_in("-3", -3, 7), Some(-3));
    assert_eq!(parse_signed_in("7", -3, 7), Some(7));
    assert_eq!(parse_signed_in("-4", -3, 7), None);
    assert_eq!(parse_signed_in("8", -3, 7), None);
}

#[test]
fn texts_are_taken_apart_and_joined() {
    assert_eq!(chars_of("e2e4"), vec!['e', '2', 'e', '4']);
    assert_eq!(chars_of(""), Vec::<char>::new());
    assert_eq!(join_with_blank(&vec![]), "");
    assert_eq!(join_with_blank(&vec![String::from("e2e4")]), "e2e4");
    assert_eq!(
        join_with_blank(&vec![String::from("e2e4"), String::from("e7e5"), String::from("g1f3")]),
        "e2e4 e7e5 g1f3"
    );
    assert!(same_text("Hash", "Hash"));
    assert!(!same_text("Hash", "hash"));
    assert!(!same_text("Hash", "Hash "));
    assert!(same_text("", ""));
}

#[test]
fn the_time_between_two_moments() {
    assert_eq!(millis_between(1000, 1500), 500);
    assert_eq!(millis_between(1500, 1000), -500);
    assert_eq!(millis_between(i64::MIN, i64::MAX), i64::MAX);
    assert_eq!(millis_between(i64::MAX, i64::MIN), i64::MIN);
    assert_eq!(millis_between(-5, 5), 10);
}

#[test]
fn the_time_is_up_when_more_has_passed_than_allowed() {
    assert!(!deadline_passed(TimeMode::Infinite, 0, 1_000_000, 0));
    assert!(!deadline_passed(TimeMode::MoveTime, 1000, 1100, 100));
    assert!(deadline_passed(TimeMode::MoveTime, 1000, 1101, 100));
    assert!(deadline_passed(TimeMode::WOrBTime, 1000, 1001, 0));
    assert!(!deadline_passed(TimeMode::WOrBTime, 1000, 1000, 0));
    // A clock that went back has not run out.
    assert!(!deadline_passed(TimeMode::MoveTime, 1000, 900, 0));
    assert!(deadline_passed(TimeMode::MoveTime, i64::MIN, i64::MAX, u64::MAX as u128 - 1));
    assert!(!deadline_passed(TimeMode::MoveTime, i64::MIN, i64::MAX, u64::MAX as u128));
    assert!(!deadline_passed(TimeMode::MoveTime, i64::MIN, i64::MAX, u128::MAX));
}

#[test]
fn no_iteration_is_started_too_late() {
    assert!(!soft_stop(TimeMode::Infinite, 1000, 5, 1));
    assert!(!soft_stop(TimeMode::MoveTime, 20, 5, 100));
    assert!(soft_stop(TimeMode::MoveTime, 21, 5, 100));
    assert!(soft_stop(TimeMode::WOrBTime, 1, 1, 0));
    assert!(!soft_stop(TimeMode::WOrBTime, 0, 10, 0));
    assert!(!soft_stop(TimeMode::MoveTime, -1, 5, 0));
    assert!(soft_stop(TimeMode::MoveTime, i64::MAX, i64::MAX, 1 << 100));
    assert!(!soft_stop(TimeMode::MoveTime, i64::MAX, i64::MIN, 0));
}

#[test]
fn time_modes() {
    assert!(!TimeMode::is_finite(&TimeMode::Infinite));
    assert!(TimeMode::is_finite(&TimeMode::MoveTime));
    assert!(TimeMode::is_finite(&TimeMode::WOrBTime));
}

#[test]
fn the_clock_is_set_up_from_the_limits() {
    let cfg = Config::default();
    let params = SearchParams { depth: 5, move_time: 1500, w_time: 80000, b_time: 16007 };
    let white = Position::startpos();
    let black = white.play(white.find_uci_move("e2e4").expect("a legal move"));
    let mut clock = TimeController::default();
    assert_eq!(clock.time_mode, TimeMode::Infinite);
    assert_eq!(clock.play_time, 0);
    clock.play_time = 77;
    clock.setup(&params, &white, &cfg);
    assert_eq!(clock.play_time, 0);
    clock.time_mode = TimeMode::MoveTime;
    clock.setup(&params, &white, &cfg);
    assert_eq!(clock.play_time, 1500);
    clock.time_mode = TimeMode::WOrBTime;
    clock.setup(&params, &white, &cfg);
    assert_eq!(clock.play_time, 10000);
    clock.setup(&params, &black, &cfg);
    assert_eq!(clock.play_time, 2000);
    assert_eq!(clock.time_mode, TimeMode::WOrBTime);
}

#[test]
fn the_clock_runs() {
    let mut clock = TimeController::default();
    assert!(!clock.is_time_up());
    clock.start();
    // The clock counts from the start of 1970: it is past the year 2020.
    assert!(clock.start_time > 1_577_836_800_000);
    assert!(clock.elapsed() >= 0);
    assert!(clock.elapsed() < 10_000);
    clock.time_mode = TimeMode::MoveTime;
    clock.play_time = 1 << 60;
    assert!(!clock.is_time_up());
    clock.start_time = clock.start_time - 1000;
    clock.play_time = 10;
    assert!(clock.is_time_up());
    assert!(clock.elapsed() >= 1000);
    clock.time_mode = TimeMode::Infinite;
    assert!(!clock.is_time_up());
}

#[test]
fn kinds_of_options() {
    assert_eq!(OptionKind::Spin.as_str(), "spin");
    assert_eq!(OptionKind::String.as_str(), "string");
}

#[test]
fn the_default_options() {
    let cfg = Config::default();
    assert_eq!(cfg.move_overhead.name, "MoveOverhead");
    assert_eq!((cfg.move_overhead.value, cfg.move_overhead.min, cfg.move_overhead.max), (0, 0, 10000));
    assert_eq!((cfg.threads.value, cfg.threads.min, cfg.threads.max), (1, 1, 1));
    assert_eq!((cfg.hash.value, cfg.hash.min, cfg.hash.max), (255, 1, 1024));
    assert_eq!((cfg.qsearch_depth.value, cfg.qsearch_depth.min, cfg.qsearch_depth.max), (15, 1, 20));
    assert_eq!(cfg.rfp_depth.value, 11);
    assert_eq!(cfg.rfp_base_margin.value, 55);
    assert_eq!(cfg.rfp_reduction_improving.value, 23);
    assert_eq!(cfg.fp_depth_margin.value, 7);
    assert_eq!(cfg.fp_base_margin.value, 40);
    assert_eq!(cfg.fp_margin_depth_factor.value, 30);
    assert_eq!(cfg.nmp_depth.value, 5);
    assert_eq!(cfg.nmp_margin.value, 10);
    assert_eq!(cfg.nmp_divisor.value, 6);
    assert_eq!(cfg.nmp_divisor_improving.value, 5);
    assert_eq!(cfg.lmp_move_margin.value, 2);
    assert_eq!(cfg.lmp_depth_factor.value, 5);
    assert_eq!(cfg.lmr_depth.value, 12);
    assert_eq!(cfg.lmr_move_margin.value, 9);
    assert_eq!(cfg.lmr_quiet_margin.value, "2.74");
    assert_eq!(cfg.lmr_quiet_divisor.value, "1.65");
    assert_eq!(cfg.lmr_base_margin.value, "0.25");
    assert_eq!(cfg.lmr_base_divisor.value, "1.7");
    assert_eq!(cfg.lmr_quiet_margin.kind, OptionKind::String);
    assert_eq!((cfg.mo_tt_entry_value.value, cfg.mo_tt_entry_value.max), (233, 500));
    assert_eq!((cfg.mo_capture_value.value, cfg.mo_capture_value.min), (60, 0));
    assert_eq!(cfg.mo_killer_value.value, 76);
    assert_eq!((cfg.tc_time_divisor.value, cfg.tc_time_divisor.min, cfg.tc_time_divisor.max), (8, 2, 100));
    assert_eq!((cfg.tc_elapsed_factor.value, cfg.tc_elapsed_factor.min, cfg.tc_elapsed_factor.max), (5, 1, 10));
    assert_eq!(cfg.tc_elapsed_factor.name, "TCElapsedFactor");
    assert_eq!(cfg.hash.kind, OptionKind::Spin);
}

#[test]
fn options_for_a_tuner() {
    let cfg = Config::default();
    assert_eq!(cfg.qsearch_depth.fmt_spsa(), "QSearchDepth, int, 15, 1, 20, 2.25, 0.002");
    assert_eq!(cfg.rfp_base_margin.fmt_spsa(), "RFPBaseMargin, int, 55, 1, 200, 2.25, 0.002");
    assert_eq!(cfg.lmp_move_margin.fmt_spsa(), "LMPMoveMargin, int, 2, 1, 20, 2.25, 0.002");
    assert_eq!(cfg.tc_time_divisor.fmt_spsa(), "TCTimeDivisor, int, 8, 2, 100, 2.25, 0.002");
    assert_eq!(cfg.tc_elapsed_factor.fmt_spsa(), "TCElapsedFactor, int, 5, 1, 10, 2.25, 0.002");
    assert_eq!(cfg.lmr_quiet_margin.fmt_spsa(), "LMRQuietMargin, float, 2.74, 0, 10, 2.25, 0.002");
    let negative = OptionDescriptor { name: "Test", kind: OptionKind::Spin, value: -7i32, min: -10, max: 0 };
    assert_eq!(negative.fmt_spsa(), "Test, int, -7, -10, 0, 2.25, 0.002");
    let lines = cfg.spsa_workload();
    assert_eq!(lines.len(), OPTION_COUNT - 3);
    assert_eq!(lines[0], "QSearchDepth, int, 15, 1, 20, 2.25, 0.002");
    assert_eq!(lines[4], "FPBaseMargin, int, 40, 1, 200, 2.25, 0.002");
    assert_eq!(lines[5], "FPDepthMargin, int, 7, 1, 20, 2.25, 0.002");
    assert_eq!(lines[18], "LMRBaseDivisor, float, 1.7, 1, 10, 2.25, 0.002");
    assert_eq!(lines[23], "TCElapsedFactor, int, 5, 1, 10, 2.25, 0.002");
}

#[test]
fn options_for_the_protocol() {
    let cfg = Config::default();
    assert_eq!(cfg.hash.describe(), "option name Hash type spin default 255 min 1 max 1024");
    assert_eq!(cfg.threads.describe(), "option name Threads type spin default 1 min 1 max 1");
    assert_eq!(
        cfg.lmr_base_margin.describe(),
        "option name LMRBaseMargin type string default 0.25 min 1 max 10"
    );
    assert_eq!(
        cfg.mo_tt_entry_value.describe(),
        "option name MOTTEntryValue type spin default 233 min 1 max 500"
    );
    let lines = cfg.describe_all();
    assert_eq!(lines.len(), OPTION_COUNT);
    assert_eq!(lines[0], "option name MoveOverhead type spin default 0 min 0 max 10000");
    assert_eq!(lines[2], "option name Hash type spin default 255 min 1 max 1024");
    assert_eq!(lines[7], "option name FPBaseMargin type spin default 40 min 1 max 200");
    assert_eq!(lines[26], "option name TCElapsedFactor type spin default 5 min 1 max 10");
}

#[test]
fn options_are_found_by_name() {
    assert_eq!(option_index("MoveOverhead"), 0);
    assert_eq!(option_index("Hash"), 2);
    assert_eq!(option_index("LMRQuietMargin"), 18);
    assert_eq!(option_index("TCElapsedFactor"), 26);
    assert_eq!(option_index("hash"), OPTION_COUNT);
    assert_eq!(option_index(""), OPTION_COUNT);
    assert_eq!(OPTION_COUNT, 27);
}

#[test]
fn setting_an_option() {
    let mut cfg = Config::default();
    assert_eq!(cfg.set_option("QSearchDepth", "7"), SetOption::Applied);
    assert_eq!(cfg.qsearch_depth.value, 7);
    assert_eq!(cfg.set_option("RFPBaseMargin", "200"), SetOption::Applied);
    assert_eq!(cfg.rfp_base_margin.value, 200);
    assert_eq!(cfg.set_option("LMPMoveMargin", "1"), SetOption::Applied);
    assert_eq!(cfg.lmp_move_margin.value, 1);
    assert_eq!(cfg.set_option("TCTimeDivisor", "30"), SetOption::Applied);
    assert_eq!(cfg.tc_time_divisor.value, 30);
    assert_eq!(cfg.set_option("TCElapsedFactor", "10"), SetOption::Applied);
    assert_eq!(cfg.tc_elapsed_factor.value, 10);
    assert_eq!(cfg.set_option("MOCaptureValue", "0"), SetOption::Applied);
    assert_eq!(cfg.mo_capture_value.value, 0);
    // The other options are as they were.
    assert_eq!(cfg.rfp_depth.value, 11);
    assert_eq!(cfg.hash.value, 255);
}

#[test]
fn setting_an_option_that_is_special() {
    let mut cfg = Config::default();
    assert_eq!(cfg.set_option("Hash", "16"), SetOption::Resized);
    assert_eq!(cfg.hash.value, 16);
    assert_eq!(cfg.set_option("LMRQuietMargin", "3.5"), SetOption::Retuned);
    assert_eq!(cfg.lmr_quiet_margin.value, "3.5");
    assert_eq!(cfg.set_option("LMRBaseDivisor", "2"), SetOption::Retuned);
    assert_eq!(cfg.lmr_base_divisor.value, "2");
    assert_eq!(cfg.set_option("Threads", "1"), SetOption::Applied);
    assert_eq!(cfg.set_option("Threads", "4"), SetOption::Unsupported);
    assert_eq!(cfg.threads.value, 1);
    assert_eq!(cfg.set_option("MoveOverhead", "100"), SetOption::Unsupported);
    assert_eq!(cfg.move_overhead.value, 0);
    assert_eq!(cfg.set_option("Contempt", "1"), SetOption::Unknown);
}

#[test]
fn a_value_out_of_range_is_refused() {
    let mut cfg = Config::default();
    assert_eq!(cfg.set_option("QSearchDepth", "0"), SetOption::Refused);
    assert_eq!(cfg.set_option("QSearchDepth", "21"), SetOption::Refused);
    assert_eq!(cfg.set_option("QSearchDepth", "many"), SetOption::Refused);
    assert_eq!(cfg.set_option("QSearchDepth", "-1"), SetOption::Refused);
    assert_eq!(cfg.qsearch_depth.value, 15);
    assert_eq!(cfg.set_option("Hash", "0"), SetOption::Refused);
    assert_eq!(cfg.set_option("Hash", "1025"), SetOption::Refused);
    assert_eq!(cfg.hash.value, 255);
    assert_eq!(cfg.set_option("NMPDivisor", "0"), SetOption::Refused);
    assert_eq!(cfg.nmp_divisor.value, 6);
    assert_eq!(cfg.set_option("TCTimeDivisor", "1"), SetOption::Refused);
    assert_eq!(cfg.set_option("FPBaseMargin", "201"), SetOption::Refused);
    assert_eq!(cfg.set_option("FPBaseMargin", "1.5"), SetOption::Refused);
    assert_eq!(cfg.fp_base_margin.value, 40);
    assert_eq!(cfg.set_option("TCElapsedFactor", ""), SetOption::Refused);
}

#[test]
fn the_sign_and_the_digits_of_a_number() {
    let unsigned = |text: &str| parse_unsigned_in(text, u128::MAX);
    let signed = |text: &str| parse_signed_in(text, i128::MIN, i128::MAX);
    assert_eq!(unsigned("+"), None);
    assert_eq!(unsigned("-0"), None);
    assert_eq!(unsigned("+0"), Some(0));
    assert_eq!(unsigned("++1"), None);
    assert_eq!(unsigned("1+"), None);
    assert_eq!(unsigned("\u{661}"), None);
    assert_eq!(unsigned("0000000000000000000000000000000000000000000000000001"), Some(1));
    assert_eq!(signed("+"), None);
    assert_eq!(signed("-"), None);
    assert_eq!(signed(""), None);
    assert_eq!(signed("-0"), Some(0));
    assert_eq!(signed("+17"), Some(17));
    assert_eq!(signed("-170141183460469231731687303715884105728"), Some(i128::MIN));
    assert_eq!(signed("-170141183460469231731687303715884105729"), None);
    assert_eq!(signed("170141183460469231731687303715884105727"), Some(i128::MAX));
    assert_eq!(signed("170141183460469231731687303715884105728"), None);
    assert_eq!(signed("5 "), None);
}
