use async_ureq::SendToPool;

fn movable<T: SendToPool>(value: T) -> T {
    value
}

fn moved_to_another_thread<T: SendToPool>(value: T) -> T {
    let (into, out) = std::sync::mpsc::channel();
    into.send(value).unwrap();
    out.recv().unwrap()
}

#[test]
fn owned_payloads_may_go_to_the_pool() {
    assert_eq!(movable(String::from("body")), "body");
    assert_eq!(movable(vec![1u8, 2, 3]), vec![1u8, 2, 3]);
    assert_eq!(movable(vec![(String::from("a"), String::from("1"))]).len(), 1);
    assert_eq!(movable(bytes::Bytes::from_static(b"abc")).as_ref(), b"abc");
}

#[test]
fn static_slices_may_go_to_the_pool() {
    assert_eq!(movable("text"), "text");
    assert_eq!(movable(vec![("a", "1"), ("b", "2")]), vec![("a", "1"), ("b", "2")]);
}

#[test]
fn a_value_for_the_pool_crosses_a_channel() {
    let form = vec![(String::from("a"), String::from("1"))];
    assert_eq!(moved_to_another_thread(form.clone()), form);
}
