use liltcp::queue::{split, Queue};

#[test]
fn queue_splits_where_it_is_made() {
    let mut storage = ();
    let mut queue = Queue(&mut storage);
    {
        let (_pusher, _popper) = queue.split();
    }
    // both halves are gone: the queue can be split again
    let (_pusher, _popper) = split(&mut queue);
}
