use snake_rl::ring_buffer::RingBuffer;

#[test]
fn first_and_last_of_an_empty_buffer_are_none() {
    let buffer: RingBuffer<i32> = RingBuffer::new(10, 3);

    assert_eq!(buffer.first(), None);
    assert_eq!(buffer.last(), None);
    assert!(!buffer.contains(&1));
}

#[test]
fn can_push_items() {
    let mut result = RingBuffer::new(10, 3);

    result.push(1);
    result.push(2);
    result.push(3);

    contains_all(&result, vec![1, 2, 3]);
}

#[test]
fn can_push_more_items_than_size() {
    let mut result = RingBuffer::new(10, 3);

    result.push(1);
    result.push(2);
    result.push(3);
    result.push(4);

    contains_all(&result, vec![2, 3, 4]);
}

#[test]
fn can_expand_more_items_than_size() {
    let mut result = RingBuffer::new(10, 2);

    result.push(1);
    result.push(2);

    contains_all(&result, vec![1, 2]);

    result.extend(3);
    result.extend(4);

    result.push(5);

    result.extend(6);

    println!("{:?}", result);

    contains_all(&result, vec![1, 2, 3, 5, 6]);
}

#[test]
fn correctly_calculates_first() {
    let mut result = RingBuffer::new(10, 3);

    result.push(1);
    assert_eq!(result.first(), Some(&1));

    result.push(2);
    assert_eq!(result.first(), Some(&2));

    result.push(3);
    assert_eq!(result.first(), Some(&3));

    result.push(4);
    assert_eq!(result.first(), Some(&4));

    result.push(5);
    assert_eq!(result.first(), Some(&5));

    result.push(6);
    assert_eq!(result.first(), Some(&6));

    result.extend(7);
    assert_eq!(result.first(), Some(&6));
}

#[test]
fn correctly_calculates_last() {
    let mut result = RingBuffer::new(10, 3);

    result.push(1);

    assert_eq!(result.last(), Some(&1));

    result.push(2);

    assert_eq!(result.last(), Some(&1));

    result.push(3);

    assert_eq!(result.last(), Some(&1));

    result.push(4);

    assert_eq!(result.last(), Some(&2));

    result.push(5);

    assert_eq!(result.last(), Some(&3));

    result.push(6);

    assert_eq!(result.last(), Some(&4));

    result.extend(7);

    assert_eq!(result.last(), Some(&7));
}

fn contains_all(buffer: &RingBuffer<i32>, expected: Vec<i32>) {
    assert_eq!(buffer.size, expected.len());

    let mut min = expected.first().unwrap().clone();
    let mut max = expected.first().unwrap().clone();

    for x in expected {
        assert!(buffer.contains(&x));

        if x < min {
            min = x.clone();
        }

        if x > max {
            max = x.clone();
        }
    }

    assert!(!buffer.contains(&(min - 1)));
    assert!(!buffer.contains(&(max + 1)));
}
