use flair_style::property_map::ComponentPropertyId;
use flair_style::var_tokens::{dynamic_parse_var_tokens, var_tokens_error_report, var_tokens_result};

fn parse_number(parser: &mut cssparser::Parser) -> Result<f32, String> {
    parser.expect_number().map_err(|err| format!("{:?}", err.kind))
}

#[test]
fn var_tokens_set_the_property_alone() {
    let id = ComponentPropertyId(7);
    assert_eq!(var_tokens_result(id, Ok(2.5f32)), Ok(vec![(id, 2.5f32)]));
    assert_eq!(
        var_tokens_result::<f32>(id, Err("bad value".to_owned())),
        Err("bad value".to_owned())
    );
}

#[test]
fn var_tokens_parse_one_value_entirely() {
    let id = ComponentPropertyId(3);
    assert_eq!(dynamic_parse_var_tokens(id, "12.5", parse_number), Ok(vec![(id, 12.5f32)]));
    assert_eq!(dynamic_parse_var_tokens(id, "  -4 ", parse_number), Ok(vec![(id, -4.0f32)]));
    // input left after the value; the report quotes the tokens
    let report = dynamic_parse_var_tokens(id, "12.5 px", parse_number).unwrap_err();
    assert!(report.starts_with("tokens `12.5 px`: "));
    // the value itself does not parse
    assert!(dynamic_parse_var_tokens(id, "red", parse_number).is_err());
}

#[test]
fn var_tokens_error_report_quotes_the_tokens() {
    assert_eq!(var_tokens_error_report("1 2", "unexpected token"), "tokens `1 2`: unexpected token");
}

#[test]
fn replacing_vars_reports_whether_they_changed() {
    let mut vars = flair_style::var_tokens::StyleVars::new();
    assert!(vars.replace_vars(&[("--gap", "4px"), ("--color", "red")]));
    assert_eq!(vars.get_var("--gap"), Some("4px"));
    // the same vars, in another order: nothing changes
    assert!(!vars.replace_vars(&[("--color", "red"), ("--gap", "4px")]));
    // a later pair overrides an earlier one
    assert!(vars.replace_vars(&[("--gap", "4px"), ("--gap", "8px")]));
    assert_eq!(vars.get_var("--gap"), Some("8px"));
    assert_eq!(vars.get_var("--color"), None);
    assert!(flair_style::var_tokens::StyleVars::default().get_var("--gap").is_none());
}
