use transcribe::display::LineDisplay;

#[test]
fn clear_is_safe_when_nothing_was_written() {
    let mut d = LineDisplay::new();
    d.clear_current_line();
    assert!(d.current_line().is_none());
    assert_eq!(d.line_count(), 0);
}

#[test]
fn clearing_twice_equals_clearing_once() {
    // Idempotence: after the same writes, one clear and two clears leave
    // observably identical displays.
    let mut once = LineDisplay::new();
    let mut twice = LineDisplay::new();
    for d in [&mut once, &mut twice] {
        d.write_final("hello world".to_string());
        d.write_partial("hel".to_string());
    }
    once.clear_current_line();
    twice.clear_current_line();
    twice.clear_current_line();
    assert_eq!(once.current_line(), twice.current_line());
    assert_eq!(once.line_count(), twice.line_count());
    assert_eq!(once.line(0), twice.line(0));
    assert_eq!(once.line(0).as_str(), "hello world");
    assert!(once.current_line().is_none());
}

#[test]
fn write_partial_overwrites_in_place() {
    let mut d = LineDisplay::new();
    d.write_partial("he".to_string());
    d.write_partial("hello".to_string());
    assert_eq!(d.current_line().as_deref(), Some("hello"));
    assert_eq!(d.line_count(), 0);
}

#[test]
fn write_final_appends_and_resets_the_line() {
    let mut d = LineDisplay::new();
    d.write_partial("hello wor".to_string());
    d.clear_current_line();
    d.write_final("hello world".to_string());
    assert!(d.current_line().is_none());
    assert_eq!(d.line_count(), 1);
    assert_eq!(d.line(0).as_str(), "hello world");
    d.write_partial("again".to_string());
    assert_eq!(d.line_count(), 1);
    assert_eq!(d.current_line().as_deref(), Some("again"));
}
