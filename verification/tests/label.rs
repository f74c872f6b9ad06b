use date_nick::label::current_date_label;
use date_nick::label::date_label;
use date_nick::label::LABEL_END;
use date_nick::label::LABEL_START;

#[test]
fn label_is_the_month_to_second_slice() {
    let ts = "2018-01-26T18:30:09.453+00:00";
    assert_eq!(date_label(ts).as_deref(), Some("01-26T18:30:09"));
}

#[test]
fn label_of_a_plain_rfc3339_timestamp() {
    let ts = "1996-12-19T16:39:57-08:00";
    assert_eq!(date_label(ts).as_deref(), Some("12-19T16:39:57"));
}

#[test]
fn too_short_a_timestamp_has_no_label() {
    assert_eq!(date_label(""), None);
    assert_eq!(date_label("2018-01-26T18:30"), None);
}

#[test]
fn a_timestamp_of_exactly_nineteen_characters_has_a_label() {
    assert_eq!(date_label("2018-01-26T18:30:09").as_deref(), Some("01-26T18:30:09"));
}

#[test]
fn the_present_label_has_the_fixed_shape() {
    let label = current_date_label();
    assert_eq!(label.len(), LABEL_END - LABEL_START);
    let bytes = label.as_bytes();
    // MM-DDTHH:MM:SS
    assert_eq!(bytes[2], b'-');
    assert_eq!(bytes[5], b'T');
    assert_eq!(bytes[8], b':');
    assert_eq!(bytes[11], b':');
    assert!(bytes[0].is_ascii_digit() && bytes[1].is_ascii_digit());
}
