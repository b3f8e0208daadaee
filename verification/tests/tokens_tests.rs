use metar_hazard::tokens::{normalize, split_lines, tokenize};

#[test]
fn split_on_newlines_keeps_empties() {
    let lines = split_lines("RJTT 251200Z\nRJAA 251230Z\n");
    let views: Vec<&str> = lines.iter().map(|s| s.as_str()).collect();
    assert_eq!(views, vec!["RJTT 251200Z", "RJAA 251230Z", ""]);
}

#[test]
fn split_empty_bulletin() {
    let lines = split_lines("");
    let views: Vec<&str> = lines.iter().map(|s| s.as_str()).collect();
    assert_eq!(views, vec![""]);
}

#[test]
fn tokenize_collapses_whitespace() {
    let tokens = tokenize("  RJTT  251200Z \t 18020KT ");
    let views: Vec<&str> = tokens.iter().map(|s| s.as_str()).collect();
    assert_eq!(views, vec!["RJTT", "251200Z", "18020KT"]);
}

#[test]
fn normalization_removes_auto_marker() {
    let tokens = tokenize("STA 251200Z AUTO 18020KT 9999");
    let fields = normalize(tokens).unwrap();
    assert_eq!(fields.time.as_str(), "251200Z");
    assert_eq!(fields.wind.as_str(), "18020KT");
    assert_eq!(fields.visibility.as_str(), "9999");
}

#[test]
fn normalization_removes_variable_wind_group() {
    let tokens = tokenize("STA 251200Z 18020KT 180V240 9999");
    let fields = normalize(tokens).unwrap();
    assert_eq!(fields.time.as_str(), "251200Z");
    assert_eq!(fields.wind.as_str(), "18020KT");
    assert_eq!(fields.visibility.as_str(), "9999");
}

#[test]
fn normalization_removes_both_optional_groups() {
    let tokens = tokenize("STA 251200Z AUTO 18020KT 180V240 9999");
    let fields = normalize(tokens).unwrap();
    assert_eq!(fields.wind.as_str(), "18020KT");
    assert_eq!(fields.visibility.as_str(), "9999");
}

#[test]
fn normalization_keeps_plain_reports() {
    let tokens = tokenize("RJTT 251200Z 18020KT 9999 OVC010");
    let fields = normalize(tokens).unwrap();
    assert_eq!(fields.time.as_str(), "251200Z");
    assert_eq!(fields.wind.as_str(), "18020KT");
    assert_eq!(fields.visibility.as_str(), "9999");
}

#[test]
fn normalization_rejects_short_reports() {
    assert!(normalize(tokenize("")).is_none());
    assert!(normalize(tokenize("RJTT 251200Z 18020KT")).is_none());
    assert!(normalize(tokenize("RJTT 251200Z AUTO 18020KT")).is_none());
}
