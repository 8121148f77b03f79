use media_sessions::error::IoError;
use media_sessions::thumbnail::ThumbnailDecoder;

#[test]
fn whole_stream_in_one_load() {
    let mut d = ThumbnailDecoder::new(4).unwrap();
    assert_eq!(d.remaining(), 4);
    assert!(!d.is_done());
    d.accept(vec![1, 2, 3, 4]);
    assert!(d.is_done());
    assert_eq!(d.finish(), Ok(vec![1, 2, 3, 4]));
}

#[test]
fn stream_in_several_loads() {
    let mut d = ThumbnailDecoder::new(5).unwrap();
    d.accept(vec![1, 2]);
    assert_eq!(d.remaining(), 3);
    d.accept(vec![3, 4, 5]);
    assert_eq!(d.remaining(), 0);
    assert_eq!(d.finish(), Ok(vec![1, 2, 3, 4, 5]));
}

#[test]
fn empty_stream_gives_empty_buffer() {
    let d = ThumbnailDecoder::new(0).unwrap();
    assert!(d.is_done());
    assert_eq!(d.finish(), Ok(Vec::new()));
}

#[test]
fn failure_midway_is_an_error() {
    let mut d = ThumbnailDecoder::new(6).unwrap();
    d.accept(vec![1, 2, 3]);
    d.fail();
    assert!(d.is_done());
    d.accept(vec![4, 5, 6]);
    assert_eq!(d.finish(), Err(IoError::ReadFailed));
}

#[test]
fn short_stream_is_an_error() {
    let mut d = ThumbnailDecoder::new(3).unwrap();
    d.accept(vec![1]);
    assert_eq!(d.finish(), Err(IoError::LengthMismatch));

    let mut d = ThumbnailDecoder::new(3).unwrap();
    d.accept(Vec::new());
    assert!(d.is_done());
    assert_eq!(d.finish(), Err(IoError::LengthMismatch));
}

#[test]
fn overlong_chunk_is_an_error() {
    let mut d = ThumbnailDecoder::new(2).unwrap();
    d.accept(vec![1, 2, 3]);
    assert_eq!(d.finish(), Err(IoError::LengthMismatch));
}

#[test]
fn oversized_stream_is_refused() {
    assert_eq!(ThumbnailDecoder::new(1u64 << 32).err(), Some(IoError::TooLarge));
    assert_eq!(ThumbnailDecoder::new(u32::MAX as u64).unwrap().remaining(), u32::MAX);
}
