use litaudioplayer::buffer::DeinterleavedBuffer;
use litaudioplayer::sample::Sample;

#[test]
fn sample_constants() {
    assert_eq!(<i16 as Sample>::min_val(), i16::MIN);
    assert_eq!(<i16 as Sample>::max_val(), i16::MAX);
    assert_eq!(<i16 as Sample>::neutral_val(), 0);
    assert_eq!(<u8 as Sample>::min_val(), 0);
    assert_eq!(<u8 as Sample>::max_val(), 255);
    assert_eq!(<u8 as Sample>::neutral_val(), 128);
    assert_eq!(<i32 as Sample>::min_val(), i32::MIN);
    assert_eq!(<i32 as Sample>::max_val(), i32::MAX);
    assert_eq!(<i32 as Sample>::neutral_val(), 0);
}

#[test]
fn from_level_maps_fractions_into_the_range() {
    // The level num / den maps linearly from the minimum towards the
    // maximum: 0 lands on the minimum, 1/2 halfway up.
    assert_eq!(<i16 as Sample>::from_level(0, 2), i16::MIN);
    assert_eq!(<i16 as Sample>::from_level(1, 2), -1);
    assert_eq!(<u8 as Sample>::from_level(0, 4), 0);
    assert_eq!(<u8 as Sample>::from_level(1, 4), 63);
    assert_eq!(<u8 as Sample>::from_level(3, 4), 191);
    assert_eq!(<i32 as Sample>::from_level(0, 3), i32::MIN);
    assert_eq!(<i32 as Sample>::from_level(1, 2), -1);
}

#[test]
fn buffer_is_channel_major() {
    let buf = DeinterleavedBuffer::from_raw(2, 3, vec![1i16, 2, 3, 4, 5, 6]);
    assert_eq!(buf.channels(), 2);
    assert_eq!(buf.frames(), 3);
    assert_eq!(buf.get(0, 0), 1);
    assert_eq!(buf.get(0, 2), 3);
    assert_eq!(buf.get(1, 0), 4);
    assert_eq!(buf.get(1, 2), 6);
}

#[test]
fn buffer_set_changes_one_sample_only() {
    let mut buf = DeinterleavedBuffer::new_filled(2, 2, 9i16);
    buf.set(1, 0, -5);
    assert_eq!(buf.get(1, 0), -5);
    assert_eq!(buf.get(0, 0), 9);
    assert_eq!(buf.get(0, 1), 9);
    assert_eq!(buf.get(1, 1), 9);
}

#[test]
fn new_filled_fills_every_sample() {
    let buf = DeinterleavedBuffer::new_filled(3, 4, 42u8);
    for c in 0..3 {
        for f in 0..4 {
            assert_eq!(buf.get(c, f), 42);
        }
    }
}
