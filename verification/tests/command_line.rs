use lcard_dac_signal_generator::cli::{arg_name, parse_cli_layout};

fn layout(args: &[&str]) -> Result<usize, String> {
    let args: Vec<String> = args.iter().map(|s| s.to_string()).collect();
    let numeric: Vec<bool> = args.iter().map(|s| s.parse::<f64>().is_ok()).collect();
    parse_cli_layout(&args, &numeric)
}

const NEED: &str = "Need: <duration_s> <freq0_hz> <freq1_hz> [phase0_deg] [phase1_deg] [amplitude_v] [offset_v]";

#[test]
fn accepts_documented_example() {
    assert_eq!(layout(&["10", "50", "100", "0", "90", "1.5", "0"]), Ok(4));
}

#[test]
fn counts_optional_arguments() {
    assert_eq!(layout(&["10", "50", "100"]), Ok(0));
    assert_eq!(layout(&["10", "50", "100", "45"]), Ok(1));
    assert_eq!(layout(&["10", "50", "100", "0", "90"]), Ok(2));
    assert_eq!(layout(&["10", "50", "100", "0", "90", "1.5"]), Ok(3));
}

#[test]
fn arguments_after_the_seventh_are_not_read() {
    assert_eq!(layout(&["10", "50", "100", "0", "90", "1.5", "0", "extra"]), Ok(4));
}

#[test]
fn reports_too_few_arguments() {
    assert_eq!(layout(&["1", "2"]), Err(NEED.to_string()));
    assert_eq!(layout(&[]), Err(NEED.to_string()));
    assert_eq!(layout(&["x"]), Err(NEED.to_string()));
}

#[test]
fn reports_first_bad_number() {
    assert_eq!(layout(&["x", "y", "z"]), Err("Invalid duration: 'x'".to_string()));
    assert_eq!(layout(&["1", "y", "z"]), Err("Invalid freq0: 'y'".to_string()));
    assert_eq!(layout(&["1", "2", "z"]), Err("Invalid freq1: 'z'".to_string()));
    assert_eq!(layout(&["1", "2", "3", "p", "q"]), Err("Invalid phase0: 'p'".to_string()));
    assert_eq!(layout(&["1", "2", "3", "0", "q"]), Err("Invalid phase1: 'q'".to_string()));
    assert_eq!(layout(&["1", "2", "3", "0", "0", "a"]), Err("Invalid amplitude: 'a'".to_string()));
    assert_eq!(layout(&["1", "2", "3", "0", "0", "1", "o"]), Err("Invalid offset: 'o'".to_string()));
}

#[test]
fn argument_names() {
    let names: Vec<&str> = (0..7).map(arg_name).collect();
    assert_eq!(names, vec!["duration", "freq0", "freq1", "phase0", "phase1", "amplitude", "offset"]);
}
