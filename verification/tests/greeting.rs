use backend_commands::greeting::greet;

#[test]
fn greet_wraps_the_name() {
    assert_eq!(greet("World"), "Hello, World! You've been greeted from Rust!");
}

#[test]
fn greet_keeps_an_empty_name() {
    assert_eq!(greet(""), "Hello, ! You've been greeted from Rust!");
}

#[test]
fn greet_keeps_the_name_as_given() {
    assert_eq!(greet("  Zoë {}"), "Hello,   Zoë {}! You've been greeted from Rust!");
}
