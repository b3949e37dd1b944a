use mfcc_pipeline::Batch;

#[test]
fn batch_starts_empty_with_declared_width() {
    let b = Batch::new(60);
    assert_eq!(b.len(), 0);
    assert_eq!(b.width(), 60);
}

#[test]
fn batch_keeps_vectors_in_push_order() {
    let mut b = Batch::new(3);
    b.push(vec![1, 2, 3]);
    b.push(vec![4, 5, 6]);
    b.push(vec![7, 8, 9]);
    assert_eq!(b.len(), 3);
    assert_eq!(b.get(0), &vec![1, 2, 3]);
    assert_eq!(b.get(1), &vec![4, 5, 6]);
    assert_eq!(b.get(2), &vec![7, 8, 9]);
}

#[test]
fn batch_vectors_all_share_the_width() {
    let mut b = Batch::new(2);
    for i in 0..5u64 {
        b.push(vec![i, i + 1]);
    }
    for i in 0..b.len() {
        assert_eq!(b.get(i).len(), b.width());
    }
}
