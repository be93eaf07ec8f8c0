use rag_admin::options::{
    bool_word_chars, dedup_bools, parse_bool_values, parse_bounded_u32, parse_u32_chars,
    parse_u32_values, push_range_values, sorted_distinct,
};

fn chars(s: &str) -> Vec<char> {
    s.chars().collect()
}

#[test]
fn single_numbers_and_ranges_are_merged_in_order() {
    assert_eq!(parse_u32_values("2,3,5-8", 1, 100, 1), Ok(vec![2, 3, 5, 6, 7, 8]));
}

#[test]
fn stepped_range_uses_its_own_step() {
    assert_eq!(parse_u32_values("400-700:100", 0, 1000, 100), Ok(vec![400, 500, 600, 700]));
}

#[test]
fn plain_range_uses_default_step() {
    assert_eq!(parse_u32_values("0-300", 0, 1000, 100), Ok(vec![0, 100, 200, 300]));
}

#[test]
fn duplicates_and_order_are_normalised() {
    assert_eq!(parse_u32_values("5, 3, 5, 1-3", 1, 100, 1), Ok(vec![1, 2, 3, 5]));
}

#[test]
fn blank_items_are_skipped() {
    assert_eq!(parse_u32_values(" 4 ,, 9 ,", 1, 100, 1), Ok(vec![4, 9]));
}

#[test]
fn step_that_overshoots_keeps_the_start() {
    assert_eq!(parse_u32_values("1-3:5", 1, 100, 1), Ok(vec![1]));
}

#[test]
fn plus_sign_is_accepted_as_rust_parses_it() {
    assert_eq!(parse_u32_values("+7", 1, 100, 1), Ok(vec![7]));
}

#[test]
fn empty_list_is_refused() {
    assert_eq!(parse_u32_values(" , ", 1, 100, 1), Err("no values supplied".to_string()));
    assert_eq!(parse_u32_values("", 1, 100, 1), Err("no values supplied".to_string()));
}

#[test]
fn invalid_number_is_quoted() {
    assert_eq!(parse_u32_values("abc", 1, 100, 1), Err("invalid number 'abc'".to_string()));
}

#[test]
fn out_of_range_number_names_the_bounds() {
    assert_eq!(parse_u32_values("0", 1, 100, 1), Err("0 is outside 1..=100".to_string()));
    assert_eq!(
        parse_u32_values("4294967295", 1, 100, 1),
        Err("4294967295 is outside 1..=100".to_string())
    );
}

#[test]
fn number_too_large_for_u32_is_invalid() {
    assert_eq!(
        parse_u32_values("4294967296", 0, 1000, 100),
        Err("invalid number '4294967296'".to_string())
    );
}

#[test]
fn reversed_range_is_refused() {
    assert_eq!(
        parse_u32_values("8-2", 1, 100, 1),
        Err("range start is greater than end in '8-2'".to_string())
    );
}

#[test]
fn zero_step_is_refused() {
    assert_eq!(
        parse_u32_values("1-5:0", 1, 100, 1),
        Err("range step must be greater than 0".to_string())
    );
}

#[test]
fn invalid_step_is_quoted_with_its_item() {
    assert_eq!(parse_u32_values("1-5:x", 1, 100, 1), Err("invalid step in '1-5:x'".to_string()));
}

#[test]
fn first_faulty_item_is_reported() {
    assert_eq!(parse_u32_values("3, x, 0", 1, 100, 1), Err("invalid number 'x'".to_string()));
}

#[test]
fn range_bound_is_checked() {
    assert_eq!(parse_u32_values("90-120", 1, 100, 1), Err("120 is outside 1..=100".to_string()));
}

#[test]
fn missing_range_start_is_an_invalid_number() {
    assert_eq!(parse_u32_values("-5", 1, 100, 1), Err("invalid number ''".to_string()));
}

#[test]
fn bounded_number_accepts_and_refuses() {
    assert_eq!(parse_bounded_u32("42", 1, 100), Ok(42));
    assert_eq!(parse_bounded_u32("101", 1, 100), Err("101 is outside 1..=100".to_string()));
    assert_eq!(parse_bounded_u32(" 4", 1, 100), Err("invalid number ' 4'".to_string()));
}

#[test]
fn range_values_are_appended() {
    let mut values = vec![9];
    assert_eq!(push_range_values(&mut values, "1 - 3", 0, 10, 1), Ok(()));
    assert_eq!(values, vec![9, 1, 2, 3]);
}

#[test]
fn text_without_dash_is_no_range() {
    let mut values = Vec::new();
    assert_eq!(push_range_values(&mut values, "x", 0, 10, 1), Err("invalid range 'x'".to_string()));
}

#[test]
fn range_ending_at_u32_max_stops() {
    let mut values = Vec::new();
    assert_eq!(push_range_values(&mut values, "4294967294-4294967295", 0, u32::MAX, 1), Ok(()));
    assert_eq!(values, vec![4294967294, 4294967295]);
}

#[test]
fn boolean_words_are_read_without_case() {
    assert_eq!(parse_bool_values("TRUE, no, yes"), Ok(vec![true, false, true]));
    assert_eq!(parse_bool_values("t,1,True"), Ok(vec![true]));
    assert_eq!(parse_bool_values("F, 0"), Ok(vec![false]));
}

#[test]
fn unknown_boolean_is_quoted() {
    assert_eq!(parse_bool_values("true, maybe"), Err("invalid boolean 'maybe'".to_string()));
}

#[test]
fn empty_boolean_list_is_refused() {
    assert_eq!(parse_bool_values(" ,"), Err("no values supplied".to_string()));
}

#[test]
fn sorted_distinct_orders_and_dedups() {
    assert_eq!(sorted_distinct(&[3, 1, 3, 2]), vec![1, 2, 3]);
    assert_eq!(sorted_distinct(&[]), Vec::<u32>::new());
}

#[test]
fn dedup_bools_collapses_runs_only() {
    assert_eq!(dedup_bools(&[true, true, false, true]), vec![true, false, true]);
}

#[test]
fn bool_word_recognises_spellings() {
    assert_eq!(bool_word_chars(&chars("YeS")), Some(true));
    assert_eq!(bool_word_chars(&chars("no")), Some(false));
    assert_eq!(bool_word_chars(&chars("nah")), None);
}

#[test]
fn u32_chars_parse_within_range() {
    assert_eq!(parse_u32_chars(&chars("42")), Some(42));
    assert_eq!(parse_u32_chars(&chars("4294967295")), Some(u32::MAX));
    assert_eq!(parse_u32_chars(&chars("4294967296")), None);
    assert_eq!(parse_u32_chars(&chars("")), None);
    assert_eq!(parse_u32_chars(&chars("+")), None);
    assert_eq!(parse_u32_chars(&chars("-1")), None);
}
