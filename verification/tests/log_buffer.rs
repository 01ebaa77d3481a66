use atlas::log_buffer::LogBuffer;

fn line(i: usize) -> String {
    format!("line{}", i)
}

#[test]
fn new_buffer_is_empty() {
    let b = LogBuffer::new(8);
    assert_eq!(b.len(), 0);
    assert_eq!(b.capacity(), 8);
}

#[test]
fn append_below_capacity_keeps_everything() {
    let mut b = LogBuffer::new(4);
    b.append("a".to_string());
    b.append("b".to_string());
    assert_eq!(b.len(), 2);
    assert_eq!(b.line(0).as_str(), "a");
    assert_eq!(b.line(1).as_str(), "b");
}

#[test]
fn append_at_capacity_drops_oldest() {
    let mut b = LogBuffer::new(2);
    b.append("a".to_string());
    b.append("b".to_string());
    b.append("c".to_string());
    assert_eq!(b.len(), 2);
    assert_eq!(b.line(0).as_str(), "b");
    assert_eq!(b.line(1).as_str(), "c");
}

#[test]
fn overflow_keeps_exactly_the_most_recent_lines_in_order() {
    let limit = 3;
    let mut b = LogBuffer::new(limit);
    for i in 0..10 {
        b.append(line(i));
        assert!(b.len() <= limit);
    }
    assert_eq!(b.len(), limit);
    assert_eq!(b.line(0).as_str(), "line7");
    assert_eq!(b.line(1).as_str(), "line8");
    assert_eq!(b.line(2).as_str(), "line9");
}

#[test]
fn append_lines_matches_one_by_one_appends() {
    let mut batch = LogBuffer::new(3);
    let mut single = LogBuffer::new(3);
    let lines: Vec<String> = (0..7).map(line).collect();
    batch.append_lines(lines.clone());
    for l in lines {
        single.append(l);
    }
    assert_eq!(batch.len(), single.len());
    for i in 0..batch.len() {
        assert_eq!(batch.line(i), single.line(i));
    }
}

#[test]
fn capacity_zero_keeps_nothing() {
    let mut b = LogBuffer::new(0);
    b.append("a".to_string());
    assert_eq!(b.len(), 0);
}
