use monolib::common::max;
use monolib::common::min;
use monolib::common::to_upper;
use monolib::common::Logger;
use monolib::mathlib::Calculator;
use monolib::stringlib::StringProcessor;

#[test]
fn max_and_min_pick_the_right_argument() {
    assert_eq!(max(3, 9), 9);
    assert_eq!(max(9, 3), 9);
    assert_eq!(max(-5, -7), -5);
    assert_eq!(min(3, 9), 3);
    assert_eq!(min(9, 3), 3);
    assert_eq!(min(-5, -7), -7);
}

#[test]
fn to_upper_uppercases() {
    assert_eq!(to_upper("rustlang"), "RUSTLANG");
    assert_eq!(to_upper("héllo"), "HÉLLO");
    assert_eq!(to_upper(""), "");
}

#[test]
fn calculator_arithmetic() {
    let calc = Calculator::new();
    assert_eq!(calc.add(10, 20), 30);
    assert_eq!(calc.add(-4, 4), 0);
    assert_eq!(calc.multiply(5, 7), 35);
    assert_eq!(calc.multiply(-3, 6), -18);
    assert_eq!(calc.max_of_three(15, 8, 23), 23);
    assert_eq!(calc.max_of_three(5, 5, 5), 5);
}

#[test]
fn calculator_factorial() {
    let calc = Calculator::new();
    assert_eq!(calc.factorial(0), 1);
    assert_eq!(calc.factorial(1), 1);
    assert_eq!(calc.factorial(-3), 1);
    assert_eq!(calc.factorial(5), 120);
    assert_eq!(calc.factorial(10), 3628800);
    assert_eq!(calc.factorial(20), 2432902008176640000);
}

#[test]
fn processor_reverse() {
    let proc = StringProcessor::new();
    assert_eq!(proc.reverse("Hello World"), "dlroW olleH");
    assert_eq!(proc.reverse(""), "");
    assert_eq!(proc.reverse("ab☃"), "☃ba");
}

#[test]
fn processor_concat() {
    let proc = StringProcessor::new();
    let parts = vec![
        String::from("Rust"),
        String::from("Mono"),
        String::from("Project"),
    ];
    assert_eq!(proc.concat(&parts, " - "), "Rust - Mono - Project");
    assert_eq!(proc.concat(&Vec::new(), ", "), "");
    assert_eq!(proc.concat(&vec![String::from("one")], ", "), "one");
}

#[test]
fn processor_to_upper() {
    let proc = StringProcessor::new();
    assert_eq!(proc.to_upper("rustlang"), "RUSTLANG");
}

#[test]
fn processor_word_count() {
    let proc = StringProcessor::new();
    assert_eq!(proc.word_count("This is a test string"), 5);
    assert_eq!(proc.word_count(""), 0);
    assert_eq!(proc.word_count("   "), 0);
    assert_eq!(proc.word_count("one"), 1);
    assert_eq!(proc.word_count("  spaced   out\twords\nhere "), 4);
}

#[test]
fn logger_formats_tagged_lines() {
    let logger = Logger::new("MathLib");
    let line = logger.line("2024-01-02 03:04:05", "hello");
    assert_eq!(line, "[2024-01-02 03:04:05] [MathLib] hello");
    let stamped = logger.logf(String::from("msg"));
    assert!(stamped.starts_with("["));
    assert!(stamped.ends_with("] [MathLib] msg"));
}
