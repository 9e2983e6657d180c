use monolib::boundary::common_logger_free;
use monolib::boundary::common_logger_log;
use monolib::boundary::common_logger_new;
use monolib::boundary::common_to_upper;
use monolib::boundary::mathlib_calculator_add;
use monolib::boundary::mathlib_calculator_factorial;
use monolib::boundary::mathlib_calculator_free;
use monolib::boundary::mathlib_calculator_max_of_three;
use monolib::boundary::mathlib_calculator_multiply;
use monolib::boundary::mathlib_calculator_new;
use monolib::boundary::stringlib_processor_concat;
use monolib::boundary::stringlib_processor_free;
use monolib::boundary::stringlib_processor_new;
use monolib::boundary::stringlib_processor_reverse;
use monolib::boundary::stringlib_processor_to_upper;
use monolib::boundary::stringlib_processor_word_count;
use monolib::common::Logger;
use monolib::marshal::decode_string;
use monolib::marshal::encode_string;
use monolib::marshal::MarshalError;
use monolib::mathlib::Calculator;
use monolib::registry::Registry;
use monolib::stringlib::StringProcessor;

#[test]
fn calculator_scenario() {
    let mut reg: Registry<Calculator> = Registry::new();
    let h = mathlib_calculator_new(&mut reg);
    assert_ne!(h, 0);
    assert_eq!(mathlib_calculator_add(&reg, h, 10, 20), 30);
    assert_eq!(mathlib_calculator_multiply(&reg, h, 5, 7), 35);
    assert_eq!(mathlib_calculator_factorial(&reg, h, 5), 120);
    assert_eq!(mathlib_calculator_max_of_three(&reg, h, 15, 8, 23), 23);
    mathlib_calculator_free(&mut reg, h);
    assert_eq!(mathlib_calculator_add(&reg, h, 10, 20), 0);
    assert_eq!(mathlib_calculator_multiply(&reg, h, 5, 7), 0);
    assert_eq!(mathlib_calculator_factorial(&reg, h, 5), 0);
    assert_eq!(mathlib_calculator_max_of_three(&reg, h, 15, 8, 23), 0);
    mathlib_calculator_free(&mut reg, h);
}

#[test]
fn string_processor_scenario() {
    let mut reg: Registry<StringProcessor> = Registry::new();
    let h = stringlib_processor_new(&mut reg);
    assert_ne!(h, 0);

    let hello = encode_string("Hello World").unwrap();
    let reversed = stringlib_processor_reverse(&reg, h, &hello).unwrap();
    assert_eq!(decode_string(&reversed).unwrap(), "dlroW olleH");

    let parts = vec![
        encode_string("Rust").unwrap(),
        encode_string("Mono").unwrap(),
        encode_string("Project").unwrap(),
    ];
    let sep = encode_string(" - ").unwrap();
    let joined = stringlib_processor_concat(&reg, h, &parts, &sep).unwrap();
    assert_eq!(decode_string(&joined).unwrap(), "Rust - Mono - Project");

    let lower = encode_string("rustlang").unwrap();
    let upper = stringlib_processor_to_upper(&reg, h, &lower).unwrap();
    assert_eq!(decode_string(&upper).unwrap(), "RUSTLANG");

    let sentence = encode_string("This is a test string").unwrap();
    assert_eq!(
        stringlib_processor_word_count(&reg, h, &sentence).unwrap(),
        5
    );

    stringlib_processor_free(&mut reg, h);
    let reversed_after = stringlib_processor_reverse(&reg, h, &hello).unwrap();
    assert_eq!(decode_string(&reversed_after).unwrap(), "");
    assert_eq!(
        stringlib_processor_word_count(&reg, h, &sentence).unwrap(),
        0
    );
}

#[test]
fn processor_rejects_bad_buffers() {
    let mut reg: Registry<StringProcessor> = Registry::new();
    let h = stringlib_processor_new(&mut reg);
    let bad = vec![0xFF, 0];
    assert_eq!(
        stringlib_processor_reverse(&reg, h, &bad),
        Err(MarshalError::InvalidEncoding)
    );
    let unterminated = vec![b'a', b'b'];
    assert_eq!(
        stringlib_processor_word_count(&reg, h, &unterminated),
        Err(MarshalError::InvalidEncoding)
    );
    let ok = encode_string("x").unwrap();
    let sep_bad = vec![0xC0, 0];
    assert_eq!(
        stringlib_processor_concat(&reg, h, &vec![ok], &sep_bad),
        Err(MarshalError::InvalidEncoding)
    );
}

#[test]
fn logger_boundary_flow() {
    let mut reg: Registry<Logger> = Registry::new();
    let h = common_logger_new(&mut reg, "App");
    assert_ne!(h, 0);
    let msg = encode_string("hello").unwrap();
    let line = common_logger_log(&reg, h, &msg).unwrap().unwrap();
    assert!(line.ends_with("] [App] hello"));
    assert!(line.starts_with("["));
    common_logger_free(&mut reg, h);
    assert_eq!(common_logger_log(&reg, h, &msg).unwrap(), None);
    common_logger_free(&mut reg, h);
    let bad = vec![0x80, 0];
    assert_eq!(
        common_logger_log(&reg, h, &bad),
        Err(MarshalError::InvalidEncoding)
    );
}

#[test]
fn to_upper_boundary_buffer_to_buffer() {
    let input = encode_string("abc def").unwrap();
    let out = common_to_upper(&input).unwrap();
    assert_eq!(decode_string(&out).unwrap(), "ABC DEF");
    let bad = vec![0xFF, 0];
    assert_eq!(common_to_upper(&bad), Err(MarshalError::InvalidEncoding));
}

#[test]
fn per_handle_sessions_match_sequential_results() {
    let mut reg: Registry<Calculator> = Registry::new();
    let ha = mathlib_calculator_new(&mut reg);
    let hb = mathlib_calculator_new(&mut reg);
    assert_ne!(ha, hb);
    let mut sum_a = 0i32;
    let mut sum_b = 0i32;
    for i in 0..100i32 {
        sum_a = mathlib_calculator_add(&reg, ha, sum_a, i);
        sum_b = mathlib_calculator_add(&reg, hb, sum_b, 2 * i);
    }
    assert_eq!(sum_a, 4950);
    assert_eq!(sum_b, 9900);
    mathlib_calculator_free(&mut reg, ha);
    assert_eq!(mathlib_calculator_add(&reg, hb, 1, 2), 3);
    mathlib_calculator_free(&mut reg, hb);
}
