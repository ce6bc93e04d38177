use datagen_tui::logbuf::LogBuffer;

fn line(s: &str) -> String {
    s.to_string()
}

#[test]
fn push_below_capacity_keeps_order_and_pin() {
    let mut b = LogBuffer::new(100);
    b.push(line("first"));
    b.push(line("second"));
    assert_eq!(b.lines, vec![line("first"), line("second")]);
    assert_eq!(b.pin, None);
    assert_eq!(b.capacity, 100);
}

#[test]
fn eviction_at_capacity_decrements_pin() {
    let mut b = LogBuffer::new(100);
    for i in 0..100 {
        b.push(format!("line {}", i));
    }
    b.pin = Some(5);
    b.push(line("overflow"));
    assert_eq!(b.lines.len(), 100);
    assert_eq!(b.lines[0], line("line 1"));
    assert_eq!(b.lines[99], line("overflow"));
    assert_eq!(b.pin, Some(4));
}

#[test]
fn eviction_at_capacity_floors_pin_at_zero() {
    let mut b = LogBuffer::new(100);
    for i in 0..100 {
        b.push(format!("line {}", i));
    }
    b.pin = Some(0);
    b.push(line("overflow"));
    assert_eq!(b.pin, Some(0));
    assert_eq!(b.lines[0], line("line 1"));
}

#[test]
fn capacity_three_keeps_last_three_and_follows_bottom() {
    let mut b = LogBuffer::new(3);
    b.push(line("a"));
    b.push(line("b"));
    b.push(line("c"));
    b.push(line("d"));
    assert_eq!(b.lines, vec![line("b"), line("c"), line("d")]);
    assert_eq!(b.pin, None);
    assert_eq!(b.lines.last(), Some(&line("d")));
}

#[test]
fn scroll_up_from_auto_follow_pins_one_above_bottom() {
    let mut b = LogBuffer::new(100);
    for i in 0..20 {
        b.push(format!("line {}", i));
    }
    b.scroll_up();
    assert_eq!(b.pin, Some(5));
    b.scroll_up();
    assert_eq!(b.pin, Some(4));
}

#[test]
fn scroll_up_stops_at_zero() {
    let mut b = LogBuffer::new(100);
    for i in 0..16 {
        b.push(format!("line {}", i));
    }
    b.scroll_up();
    assert_eq!(b.pin, Some(1));
    b.scroll_up();
    assert_eq!(b.pin, Some(0));
    b.scroll_up();
    assert_eq!(b.pin, Some(0));
}

#[test]
fn scroll_down_clears_pin_at_bottom() {
    let mut b = LogBuffer::new(100);
    for i in 0..20 {
        b.push(format!("line {}", i));
    }
    b.scroll_up();
    b.scroll_up();
    assert_eq!(b.pin, Some(4));
    b.scroll_down();
    assert_eq!(b.pin, Some(5));
    b.scroll_down();
    assert_eq!(b.pin, None);
    b.scroll_down();
    assert_eq!(b.pin, None);
}

#[test]
fn short_buffer_does_not_scroll() {
    let mut b = LogBuffer::new(100);
    for i in 0..10 {
        b.push(format!("line {}", i));
    }
    b.scroll_up();
    assert_eq!(b.pin, None);
    b.scroll_down();
    assert_eq!(b.pin, None);
}
