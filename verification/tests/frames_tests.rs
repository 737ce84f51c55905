use tunfd::frames::FrameStream;

#[test]
fn frames_come_back_in_write_order() {
    let mut s = FrameStream::new();
    s.write_frame(vec![1, 2, 3]);
    s.write_frame(vec![4]);
    s.write_frame(vec![5, 6]);
    assert_eq!(s.read_frame(), Some(vec![1, 2, 3]));
    assert_eq!(s.read_frame(), Some(vec![4]));
    assert_eq!(s.read_frame(), Some(vec![5, 6]));
    assert_eq!(s.read_frame(), None);
}

#[test]
fn frame_boundaries_are_kept() {
    // two writes never merge into one read, nor does one split
    let mut s = FrameStream::new();
    s.write_frame(vec![9; 1500]);
    s.write_frame(vec![8; 2]);
    let first = s.read_frame().unwrap();
    assert_eq!(first.len(), 1500);
    let second = s.read_frame().unwrap();
    assert_eq!(second, vec![8, 8]);
}

#[test]
fn empty_stream_reads_nothing_and_stays_empty() {
    let mut s = FrameStream::new();
    assert_eq!(s.read_frame(), None);
    s.write_frame(Vec::new());
    // an empty frame is still one frame
    assert_eq!(s.read_frame(), Some(Vec::new()));
    assert_eq!(s.read_frame(), None);
}
