use exercises::queue::{MyStack, Queue};

#[test]
fn test_queue() {
    let mut s = MyStack::<i32>::new();
    assert_eq!(s.pop(), Err("Stack is empty"));
    s.push(1);
    s.push(2);
    s.push(3);
    assert_eq!(s.pop(), Ok(3));
    assert_eq!(s.pop(), Ok(2));
    s.push(4);
    s.push(5);
    assert_eq!(s.is_empty(), false);
    assert_eq!(s.pop(), Ok(5));
    assert_eq!(s.pop(), Ok(4));
    assert_eq!(s.pop(), Ok(1));
    assert_eq!(s.pop(), Err("Stack is empty"));
    assert_eq!(s.is_empty(), true);
}

#[test]
fn queue_is_first_in_first_out() {
    let mut q = Queue::<u8>::new();
    assert!(q.is_empty());
    assert_eq!(q.size(), 0);
    assert_eq!(q.peek(), Err("Queue is empty"));
    assert_eq!(q.dequeue(), Err("Queue is empty"));
    q.enqueue(7);
    q.enqueue(8);
    q.enqueue(9);
    assert!(!q.is_empty());
    assert_eq!(q.size(), 3);
    assert_eq!(q.peek(), Ok(&7));
    assert_eq!(q.size(), 3);
    assert_eq!(q.dequeue(), Ok(7));
    assert_eq!(q.dequeue(), Ok(8));
    assert_eq!(q.peek(), Ok(&9));
    assert_eq!(q.dequeue(), Ok(9));
    assert_eq!(q.dequeue(), Err("Queue is empty"));
    assert!(q.is_empty());
}

#[test]
fn default_queue_is_empty() {
    let q: Queue<String> = Queue::default();
    assert!(q.is_empty());
    assert_eq!(q.size(), 0);
}

#[test]
fn stack_is_last_in_first_out() {
    let mut s = MyStack::<String>::new();
    assert!(s.is_empty());
    for word in ["a", "b", "c", "d"] {
        s.push(word.to_string());
        assert!(!s.is_empty());
    }
    for word in ["d", "c", "b", "a"] {
        assert_eq!(s.pop(), Ok(word.to_string()));
    }
    assert!(s.is_empty());
    assert_eq!(s.pop(), Err("Stack is empty"));
}
