use rule_example::boundary::terminator_index;
use rule_example::boundary::view_of;

#[test]
fn view_stops_before_terminator() {
    let buf = [1u8, 2, 3, 0];
    assert_eq!(view_of(&buf), Some(&[1u8, 2, 3][..]));
}

#[test]
fn embedded_zero_truncates_view() {
    let buf = [7u8, 0, 9, 9, 0];
    assert_eq!(view_of(&buf), Some(&[7u8][..]));
    assert_eq!(terminator_index(&buf), Some(1));
}

#[test]
fn lone_terminator_gives_empty_view() {
    let buf = [0u8];
    assert_eq!(view_of(&buf), Some(&[][..]));
}

#[test]
fn unterminated_region_refused() {
    let buf = [1u8, 2, 3];
    assert_eq!(view_of(&buf), None);
    assert_eq!(terminator_index(&buf), None);
    assert_eq!(view_of(&[]), None);
}
