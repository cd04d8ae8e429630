use polymarket_cli::outcomes::{pair_outcomes, parse_outcomes};

#[test]
fn test_parse_outcomes_valid() {
    let outcomes = r#"["Yes","No"]"#;
    let token_ids = r#"["token_a","token_b"]"#;
    let result = parse_outcomes(outcomes, token_ids);
    assert!(result.is_some());
    let pairs = result.unwrap();
    assert_eq!(pairs.len(), 2);
    assert_eq!(pairs[0], ("Yes".to_string(), "token_a".to_string()));
    assert_eq!(pairs[1], ("No".to_string(), "token_b".to_string()));
}

#[test]
fn test_parse_outcomes_empty_arrays() {
    let outcomes = "[]";
    let token_ids = "[]";
    let result = parse_outcomes(outcomes, token_ids);
    assert!(result.is_none());
}

#[test]
fn test_parse_outcomes_mismatched_lengths() {
    let outcomes = r#"["Yes","No"]"#;
    let token_ids = r#"["token_a"]"#;
    let result = parse_outcomes(outcomes, token_ids);
    assert!(result.is_none());
}

#[test]
fn test_parse_outcomes_invalid_json() {
    let outcomes = "not json";
    let token_ids = r#"["token_a"]"#;
    let result = parse_outcomes(outcomes, token_ids);
    assert!(result.is_none());
}

#[test]
fn test_parse_outcomes_single_outcome() {
    let outcomes = r#"["Yes"]"#;
    let token_ids = r#"["token_x"]"#;
    let result = parse_outcomes(outcomes, token_ids);
    assert!(result.is_some());
    let pairs = result.unwrap();
    assert_eq!(pairs.len(), 1);
    assert_eq!(pairs[0], ("Yes".to_string(), "token_x".to_string()));
}

#[test]
fn parse_outcomes_needs_lists_of_strings() {
    assert!(parse_outcomes(r#"["Yes"]"#, "not json").is_none());
    assert!(parse_outcomes(r#"["Yes"]"#, "[1]").is_none());
    assert!(parse_outcomes(r#"{"a":"b"}"#, r#"["t"]"#).is_none());
    assert!(parse_outcomes(r#"["Yes","No"]"#, r#"["a","b","c"]"#).is_none());
    let pairs = parse_outcomes(r#" [ "Yes" , "No" ] "#, r#"["1","2"]"#).unwrap();
    assert_eq!(pairs, vec![("Yes".to_string(), "1".to_string()), ("No".to_string(), "2".to_string())]);
}

#[test]
fn pair_outcomes_pairs_by_position() {
    let names = vec!["Up".to_string(), "Down".to_string(), "Flat".to_string()];
    let ids = vec!["1".to_string(), "2".to_string(), "3".to_string()];
    let pairs = pair_outcomes(names, ids).unwrap();
    assert_eq!(
        pairs,
        vec![
            ("Up".to_string(), "1".to_string()),
            ("Down".to_string(), "2".to_string()),
            ("Flat".to_string(), "3".to_string())
        ]
    );
    assert!(pair_outcomes(vec![], vec![]).is_none());
    assert!(pair_outcomes(vec!["Up".to_string()], vec![]).is_none());
    assert!(pair_outcomes(vec![], vec!["1".to_string()]).is_none());
}
