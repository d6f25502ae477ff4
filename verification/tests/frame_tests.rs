use xdrfile::Frame;

fn triplet(value: f32) -> [u32; 3] {
    [value.to_bits(), value.to_bits(), value.to_bits()]
}

#[test]
fn test_frame_with_capacity() {
    let frame = Frame::with_len(10);
    assert_eq!(frame.coords.len(), 10);
}

#[test]
fn test_frame_filter_atoms() {
    let mut frame = Frame::with_len(3);
    frame.coords[0] = [1.0f32.to_bits(), 2.0f32.to_bits(), 3.0f32.to_bits()];
    frame.coords[1] = [4.0f32.to_bits(), 5.0f32.to_bits(), 6.0f32.to_bits()];
    frame.coords[2] = [7.0f32.to_bits(), 8.0f32.to_bits(), 9.0f32.to_bits()];
    let filter: Vec<usize> = vec![1, 2];
    let mut frame_new = frame.clone();
    frame_new.filter_coords(&filter);
    assert!(frame_new.len() == filter.len());
    assert!(frame_new.coords[0] == frame.coords[1]);
    assert!(frame_new.coords[1] == frame.coords[2]);
}

#[test]
fn test_frame_len() {
    let frame = Frame::with_len(10);
    assert_eq!(frame.len(), 10);
}

#[test]
fn test_filter_coords() {
    let mut frame = Frame {
        step: 0,
        time: 0,
        box_vector: [[0u32; 3]; 3],
        coords: vec![triplet(0.0), triplet(1.0), triplet(2.0)],
    };

    frame.filter_coords(&[1]);
    for i in 0..3 {
        assert_eq!(frame.coords[0][i], 1.0f32.to_bits());
    }
}

#[test]
fn test_new_and_default() {
    let frame = Frame::new();
    assert_eq!(frame.step, 0);
    assert_eq!(frame.time, 0);
    assert_eq!(frame.box_vector, [[0u32; 3]; 3]);
    assert!(frame.coords.is_empty());
    assert_eq!(frame, Frame::default());
}

#[test]
fn test_resize_grows_with_zeros() {
    let mut frame = Frame::with_len(1);
    frame.coords[0] = triplet(4.5);
    frame.step = 7;
    frame.time = 2.0f32.to_bits();
    frame.resize(3);
    assert_eq!(frame.coords.len(), 3);
    assert_eq!(frame.coords[0], triplet(4.5));
    assert_eq!(frame.coords[1], [0u32; 3]);
    assert_eq!(frame.coords[2], [0u32; 3]);
    assert_eq!(frame.step, 7);
    assert_eq!(frame.time, 2.0f32.to_bits());
}

#[test]
fn test_resize_shrinks_keeping_prefix() {
    let mut frame = Frame::with_len(3);
    frame.coords[0] = triplet(1.0);
    frame.coords[1] = triplet(2.0);
    frame.coords[2] = triplet(3.0);
    frame.resize(2);
    assert_eq!(frame.coords.len(), 2);
    assert_eq!(frame.coords[0], triplet(1.0));
    assert_eq!(frame.coords[1], triplet(2.0));
}

#[test]
fn test_clone_copies_everything() {
    let frame = Frame {
        step: 5,
        time: 2.0f32.to_bits(),
        box_vector: [triplet(1.0), triplet(2.0), triplet(3.0)],
        coords: vec![triplet(1.0), triplet(1.0)],
    };
    let copy = frame.clone();
    assert_eq!(copy, frame);
}
