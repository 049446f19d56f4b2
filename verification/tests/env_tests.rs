use backup_cron::utils::substitute_env_vars;

fn env() -> Vec<(String, String)> {
    vec![
        ("TEST_VAR".to_string(), "test_value".to_string()),
        ("EMPTY_VAR".to_string(), "".to_string()),
    ]
}

#[test]
fn test_env_var_substitution() {
    let bindings = env();

    // basic substitution
    let input = "password = \"${TEST_VAR}\"";
    let result = substitute_env_vars(input, &bindings).unwrap();
    assert_eq!(result, "password = \"test_value\"");

    // a default value fills in for a missing variable
    let input_with_default = "url = \"${MISSING_VAR:-default_url}\"";
    let result = substitute_env_vars(input_with_default, &bindings).unwrap();
    assert_eq!(result, "url = \"default_url\"");

    // several placeholders in one text
    let input_multiple = "host = \"${TEST_VAR}\" port = \"${MISSING_VAR:-5432}\"";
    let result = substitute_env_vars(input_multiple, &bindings).unwrap();
    assert_eq!(result, "host = \"test_value\" port = \"5432\"");

    // a missing variable without a default is an error
    let input_error = "password = \"${MISSING_VAR}\"";
    assert!(substitute_env_vars(input_error, &bindings).is_err());
}

#[test]
fn test_empty_value_counts_as_unbound() {
    let bindings = env();
    let with_default = substitute_env_vars("x = ${EMPTY_VAR:-fallback}", &bindings).unwrap();
    assert_eq!(with_default, "x = fallback");
    let err = substitute_env_vars("x = ${EMPTY_VAR}", &bindings);
    assert_eq!(
        err.unwrap_err(),
        "Environment variable 'EMPTY_VAR' not found"
    );
}

#[test]
fn test_text_without_placeholders_is_kept() {
    let bindings = env();
    assert_eq!(substitute_env_vars("", &bindings).unwrap(), "");
    assert_eq!(substitute_env_vars("plain text", &bindings).unwrap(), "plain text");
    // malformed placeholders stay as written
    assert_eq!(substitute_env_vars("a ${} b", &bindings).unwrap(), "a ${} b");
    assert_eq!(substitute_env_vars("open ${NOPE", &bindings).unwrap(), "open ${NOPE");
    assert_eq!(substitute_env_vars("$ {X}", &bindings).unwrap(), "$ {X}");
}

#[test]
fn test_colon_default_without_dash() {
    // a default written `:value` is taken as written
    let bindings = env();
    let r = substitute_env_vars("${MISSING_VAR:direct}", &bindings).unwrap();
    assert_eq!(r, "direct");
    // with the variable bound, the binding wins over the default
    let r = substitute_env_vars("${TEST_VAR:-unused}", &bindings).unwrap();
    assert_eq!(r, "test_value");
}
