use backend_commands::status::Status;

#[test]
fn from_u16_takes_three_digit_codes() {
    assert!(Status::from_u16(0).is_none());
    assert!(Status::from_u16(99).is_none());
    assert_eq!(Status::from_u16(100).map(|s| s.as_u16()), Some(100));
    assert_eq!(Status::from_u16(200).map(|s| s.as_u16()), Some(200));
    assert_eq!(Status::from_u16(999).map(|s| s.as_u16()), Some(999));
    assert!(Status::from_u16(1000).is_none());
    assert!(Status::from_u16(u16::MAX).is_none());
}

#[test]
fn success_is_the_two_hundreds() {
    let success = |code: u16| Status::from_u16(code).unwrap().is_success();
    assert!(!success(100));
    assert!(!success(199));
    assert!(success(200));
    assert!(success(204));
    assert!(success(299));
    assert!(!success(300));
    assert!(!success(404));
    assert!(!success(500));
    assert!(!success(999));
}

#[test]
fn text_is_the_code_and_its_reason() {
    let text = |code: u16| Status::from_u16(code).unwrap().text();
    assert_eq!(text(200), "200 OK");
    assert_eq!(text(404), "404 Not Found");
    assert_eq!(text(500), "500 Internal Server Error");
    assert_eq!(text(100), "100 Continue");
}

#[test]
fn text_of_a_code_without_a_reason() {
    let text = |code: u16| Status::from_u16(code).unwrap().text();
    assert_eq!(text(299), "299 <unknown status code>");
    assert_eq!(text(999), "999 <unknown status code>");
}

#[test]
fn text_opens_with_the_digits_of_the_code() {
    for code in 100u16..=999 {
        let text = Status::from_u16(code).unwrap().text();
        assert!(text.starts_with(&format!("{} ", code)), "{}", text);
    }
}
