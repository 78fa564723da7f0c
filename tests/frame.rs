use plugin_host::frame::{decode_len, encode_len, frame, frame_from, read_frame, FrameError, MEMORY_START};

#[test]
fn header_is_little_endian() {
    assert_eq!(encode_len(0x01020304), vec![4, 3, 2, 1]);
    assert_eq!(decode_len(&[4, 3, 2, 1]), 0x01020304);
    assert_eq!(decode_len(&encode_len(u32::MAX)), u32::MAX);
}

#[test]
fn frame_prefixes_length() {
    assert_eq!(frame(&[9, 8, 7]), vec![3, 0, 0, 0, 9, 8, 7]);
    assert_eq!(frame(&[]), vec![0, 0, 0, 0]);
}

#[test]
fn write_then_read_frame() {
    let mut mem = vec![0xaau8; 16];
    let addr = plugin_host::frame::write(&mut mem, &[1, 2, 3]).unwrap();
    assert_eq!(addr as usize, MEMORY_START);
    assert_eq!(mem[0], 0xaa);
    assert_eq!(&mem[1..8], &[3, 0, 0, 0, 1, 2, 3]);
    assert_eq!(mem[8], 0xaa);
    assert_eq!(read_frame(&mem, addr as usize), Ok(Some(vec![1, 2, 3])));
}

#[test]
fn empty_frame_reads_as_absent() {
    let mut mem = vec![7u8; 8];
    let addr = plugin_host::frame::write(&mut mem, &[]).unwrap();
    assert_eq!(read_frame(&mem, addr as usize), Ok(None));
}

#[test]
fn write_that_does_not_fit_leaves_memory() {
    let mut mem = vec![5u8; 7];
    assert_eq!(plugin_host::frame::write(&mut mem, &[1, 2, 3]), Err(FrameError::InvalidOffset));
    assert_eq!(mem, vec![5u8; 7]);
    let mut exact = vec![0u8; 8];
    assert!(plugin_host::frame::write(&mut exact, &[1, 2, 3]).is_ok());
}

#[test]
fn read_frame_out_of_bounds() {
    assert_eq!(read_frame(&[1, 0, 0], 0), Err(FrameError::InvalidOffset));
    assert_eq!(read_frame(&[1, 2, 0, 0, 0, 9], 1), Err(FrameError::InvalidOffset));
    assert_eq!(read_frame(&[0, 0, 0, 0], 5), Err(FrameError::InvalidOffset));
}

#[test]
fn frame_from_decides_on_header() {
    assert_eq!(frame_from(&[0, 0, 0, 0], None), Ok(None));
    assert_eq!(frame_from(&[2, 0, 0, 0], None), Err(FrameError::InvalidOffset));
    assert_eq!(frame_from(&[2, 0, 0, 0], Some(vec![7, 8])), Ok(Some(vec![7, 8])));
}
