use gdps_core::listparse::{has_dash_piece, parse_id_list};

#[test]
fn id_lists_parse_with_or_without_spaces() {
    assert_eq!(parse_id_list("5,9,3"), Some(vec![5, 9, 3]));
    assert_eq!(parse_id_list("5, 9, 3"), Some(vec![5, 9, 3]));
    assert_eq!(parse_id_list(" 42 "), Some(vec![42]));
    assert_eq!(parse_id_list("-1,2"), Some(vec![-1, 2]));
}

#[test]
fn malformed_id_lists_are_rejected_whole() {
    assert_eq!(parse_id_list(""), None);
    assert_eq!(parse_id_list("5,,3"), None);
    assert_eq!(parse_id_list("a,b"), None);
    assert_eq!(parse_id_list("5,x"), None);
    assert_eq!(parse_id_list("(1,2)"), None);
    assert_eq!(parse_id_list("9223372036854775808"), None);
}

#[test]
fn dash_piece_detection() {
    assert!(has_dash_piece("-"));
    assert!(has_dash_piece("1,-"));
    assert!(has_dash_piece(" - "));
    assert!(!has_dash_piece("1,2"));
    assert!(!has_dash_piece(""));
    assert!(!has_dash_piece("--"));
}
