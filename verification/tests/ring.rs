use strolle::ring::DoubleBuffered;

#[test]
fn buffers_are_kept_apart() {
    let ring = DoubleBuffered::new(vec![1, 2, 3], vec![4, 5]);
    assert_eq!(ring.curr(), &vec![1, 2, 3]);
    assert_eq!(ring.prev(), &vec![4, 5]);
}

#[test]
fn write_goes_to_the_current_buffer() {
    let mut ring = DoubleBuffered::new(vec![1, 2, 3], vec![4, 5]);
    ring.write(1, 9);
    assert_eq!(ring.curr(), &vec![1, 9, 3]);
    assert_eq!(ring.prev(), &vec![4, 5]);
}

#[test]
fn swap_makes_the_current_buffer_the_previous() {
    let mut ring = DoubleBuffered::new(vec![1, 2, 3], vec![4, 5]);
    ring.swap();
    assert_eq!(ring.curr(), &vec![4, 5]);
    assert_eq!(ring.prev(), &vec![1, 2, 3]);
    ring.swap();
    assert_eq!(ring.curr(), &vec![1, 2, 3]);
    assert_eq!(ring.prev(), &vec![4, 5]);
}
