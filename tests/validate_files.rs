use gcode_validator::system::{CoordinatesConfig, UnitsConfig};
use gcode_validator::{validate, Error, SystemConfig};

fn read_lines(text: &[&str]) -> Vec<Result<String, std::io::Error>> {
    text.iter().map(|line| Ok(line.to_string())).collect()
}

fn valid_file() -> Vec<&'static str> {
    vec![
        "; generated for a test",
        "M73 P0 R12",
        "M201 X1000 Y1000 Z200 E5000",
        "M203 X200 Y200 Z12 E120",
        "M204 P1250 R1250 T1250",
        "M205 X8.00 Y8.00 Z0.40 E4.50",
        "M107",
        "M862.3 P \"MK3S\"",
        "M862.1 P0.4",
        "M115 U3.9.0",
        "M83",
        "M104 S215",
        "M140 S60",
        "M190 S60",
        "M109 S215",
        "G28 W",
        "G80",
        "",
        "G1 Y-3.0 F1000.0",
        "G92 E0.0",
        "G1 X60.0 E9.0 F1000.0 ; intro line",
        "G1 X100.0 E12.5 F1000.0",
        "G92 E0.0",
        "M221 S95",
        "G21",
        "G90",
        "M82",
        "G1 F1200.000",
        "G1 X116.259 Y130.177 E0.04011 ; skirt",
        "M84",
    ]
}

#[test]
fn valid_file_has_no_errors() {
    let errors = validate(read_lines(&valid_file())).unwrap();
    assert!(errors.is_empty())
}

#[test]
fn empty_file_has_no_errors() {
    assert!(validate(vec![]).unwrap().is_empty());
}

#[test]
fn invalid_command_on_line_22_is_reported() {
    let mut text = valid_file();
    text[21] = "GA1 X109.383 Y119.062 E0.00431 ; perimeter";
    let errors = validate(read_lines(&text)).unwrap();
    assert_eq!(errors.len(), 1);
    assert!(matches!(errors[0], Error::InvalidCommandInLine(_, Some(22))));
}

#[test]
fn errors_come_in_line_order() {
    let mut text = valid_file();
    text[2] = "M999";
    text[9] = "X1 Y2";
    text[25] = "G5 I1 J2";
    let errors = validate(read_lines(&text)).unwrap();
    assert_eq!(errors.len(), 3);
    assert!(matches!(errors[0], Error::UnsupportedCommand(ref n) if n == "M999"));
    assert!(matches!(errors[1], Error::InvalidCommandInLine(Some(ref n), Some(10)) if n == "X1"));
    assert!(matches!(errors[2], Error::UnsupportedCommand(ref n) if n == "G5"));
}

#[test]
fn read_fault_on_line_5_aborts() {
    let mut lines = read_lines(&["G1 X1", "GA1", "M999", "G28"]);
    lines.push(Err(std::io::Error::new(std::io::ErrorKind::InvalidData, "bad line")));
    lines.push(Ok("GB2".to_string()));
    match validate(lines) {
        Err(Error::InputOutputError(e)) => {
            assert_eq!(e.kind(), std::io::ErrorKind::InvalidData);
            assert_eq!(e.to_string(), "bad line");
        }
        other => panic!("{:?}", other),
    }
}

#[test]
fn adds() {
    assert_eq!(gcode_validator::add(2, 2), 4);
    assert_eq!(gcode_validator::add(u64::MAX - 1, 1), u64::MAX);
}

#[test]
fn machine_starts_in_its_initial_state() {
    let config = SystemConfig::default();
    assert_eq!(config.global.units_config, UnitsConfig::Millimeters);
    assert_eq!(config.global.coordinates_config, CoordinatesConfig::Absolute);
    assert!(config.bed_config.origin.is_none());
    assert!(config.bed_config.limit.is_none());
    assert!(!config.extruder_config.fan_enabled);
    assert_eq!(config.extruder_config.current_temp, 0);
    let at = config.extruder_config.current_location;
    assert_eq!((at.x, at.y, at.z), (0, 0, 0));
}
