use sql_infer::utils::parse_into_postgres;

#[test]
fn no_placeholders_is_identity() {
    let q = "select id, name from users";
    let r = parse_into_postgres(q);
    assert_eq!(r.raw_query, q);
    assert!(r.params.is_empty());
}

#[test]
fn single_placeholder_is_rewritten() {
    let r = parse_into_postgres("select name from users where id = :uid");
    assert_eq!(r.raw_query, "select name from users where id = $1");
    assert_eq!(r.params, vec!["uid".to_string()]);
}

#[test]
fn repeated_placeholder_reuses_the_number() {
    let r = parse_into_postgres("select * from t where a=:x and b=:x");
    assert_eq!(r.raw_query, "select * from t where a=$1 and b=$1");
    assert_eq!(r.params, vec!["x".to_string()]);
}

#[test]
fn distinct_placeholders_are_numbered_in_order_of_first_appearance() {
    let r = parse_into_postgres("select * from t where a=:x and b=:y and c=:x and d=:z");
    assert_eq!(r.raw_query, "select * from t where a=$1 and b=$2 and c=$1 and d=$3");
    assert_eq!(
        r.params,
        vec!["x".to_string(), "y".to_string(), "z".to_string()]
    );
}

#[test]
fn cast_is_not_a_placeholder() {
    let r = parse_into_postgres("select col::text from t");
    assert_eq!(r.raw_query, "select col::text from t");
    assert!(r.params.is_empty());
}

#[test]
fn placeholder_followed_by_cast_keeps_both() {
    let r = parse_into_postgres("select :v::text as v");
    assert_eq!(r.raw_query, "select $1::text as v");
    assert_eq!(r.params, vec!["v".to_string()]);
}

#[test]
fn placeholders_inside_single_quotes_pass_through() {
    let r = parse_into_postgres("select ':notaparam' from t where a = :real");
    assert_eq!(r.raw_query, "select ':notaparam' from t where a = $1");
    assert_eq!(r.params, vec!["real".to_string()]);
}

#[test]
fn placeholders_inside_double_quotes_pass_through() {
    let r = parse_into_postgres("select \":notaparam\" from t where a = :real");
    assert_eq!(r.raw_query, "select \":notaparam\" from t where a = $1");
    assert_eq!(r.params, vec!["real".to_string()]);
}

#[test]
fn leading_quote_is_handled() {
    let r = parse_into_postgres("':inside' = :outside");
    assert_eq!(r.raw_query, "':inside' = $1");
    assert_eq!(r.params, vec!["outside".to_string()]);
}

#[test]
fn doubled_quotes_stay_inside_the_literal() {
    let r = parse_into_postgres("select 'it''s :x' from t");
    assert_eq!(r.raw_query, "select 'it''s :x' from t");
    assert!(r.params.is_empty());
}

#[test]
fn many_parameters_get_increasing_numbers() {
    let names: Vec<String> = (0..12).map(|i| format!("p{i}")).collect();
    let query: Vec<String> = names.iter().map(|n| format!(":{n}")).collect();
    let r = parse_into_postgres(&query.join(", "));
    let expected: Vec<String> = (1..=12).map(|k| format!("${k}")).collect();
    assert_eq!(r.raw_query, expected.join(", "));
    assert_eq!(r.params, names);
}

#[test]
fn escape_ident_doubles_quotes() {
    assert_eq!(sql_infer::escape_ident("users"), "\"users\"");
    assert_eq!(sql_infer::escape_ident("a\"b"), "\"a\"\"b\"");
}
