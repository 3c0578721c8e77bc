use radarsync::batch::UploadBatch;

fn paths(n: usize) -> Vec<String> {
    (1..=n).map(|i| format!("/music/track{i}.mp3")).collect()
}

#[test]
fn cap_two_five_items_third_fails() {
    let mut b = UploadBatch::new(paths(5), 2);
    assert_eq!(b.len(), 5);
    let i0 = b.start_next();
    let i1 = b.start_next();
    assert_eq!((i0, i1), (0, 1));
    assert!(!b.can_start());
    assert_eq!(b.running(), 2);
    assert!(!b.finish(i0, Ok(())));
    let i2 = b.start_next();
    assert!(!b.can_start());
    assert!(b.finish(i2, Err("device refused the upload".to_string())));
    let i3 = b.start_next();
    assert!(!b.finish(i1, Ok(())));
    let i4 = b.start_next();
    assert!(!b.can_start());
    assert!(!b.finish(i4, Ok(())));
    assert!(!b.finish(i3, Ok(())));
    assert!(b.is_settled());
    assert_eq!(b.progress(), 5);
    let f = b.first_error().expect("a failure");
    assert_eq!(f.index, 2);
    assert_eq!(f.path, "/music/track3.mp3");
    assert_eq!(f.cause, "device refused the upload");
}

#[test]
fn only_the_first_failure_is_kept() {
    let mut b = UploadBatch::new(paths(3), 3);
    let a = b.start_next();
    let c = b.start_next();
    let d = b.start_next();
    assert!(b.finish(c, Err("second item".to_string())));
    assert!(!b.finish(a, Err("first item".to_string())));
    assert!(!b.finish(d, Err("third item".to_string())));
    assert_eq!(b.progress(), 3);
    let f = b.first_error().unwrap();
    assert_eq!(f.index, 1);
    assert_eq!(f.cause, "second item");
}

#[test]
fn running_never_exceeds_cap() {
    let mut b = UploadBatch::new(paths(7), 3);
    let mut running = Vec::new();
    let mut done = 0;
    while !b.is_settled() {
        while b.can_start() {
            running.push(b.start_next());
            assert!(b.running() <= 3);
        }
        let i = running.remove(0);
        b.finish(i, Ok(()));
        done += 1;
        assert_eq!(b.progress(), done);
    }
    assert_eq!(b.progress(), 7);
    assert!(b.first_error().is_none());
}

#[test]
fn empty_batch_is_settled() {
    let b = UploadBatch::new(Vec::new(), 1);
    assert!(b.is_settled());
    assert!(!b.can_start());
    assert_eq!(b.progress(), 0);
}
