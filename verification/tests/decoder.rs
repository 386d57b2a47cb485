use wallpaper_cava::decoder::{classify_read_failure, decode_frame, normalize, ProducerError};
use wallpaper_cava::rational::Rat;

#[test]
fn decode_little_endian_in_bar_order() {
    let bytes = vec![0x01u8, 0x00, 0xff, 0xff, 0x34, 0x12];
    let samples = decode_frame(&bytes, 3).unwrap();
    assert_eq!(samples, vec![1u16, 65535, 0x1234]);
}

#[test]
fn short_stream_yields_stream_closed() {
    // 5 bytes cannot hold 3 samples: the producer died mid-frame.
    let bytes = vec![0u8, 0, 0, 0, 0];
    assert_eq!(decode_frame(&bytes, 3), Err(ProducerError::StreamClosed));
}

#[test]
fn empty_stream_yields_stream_closed() {
    let bytes: Vec<u8> = Vec::new();
    assert_eq!(decode_frame(&bytes, 1), Err(ProducerError::StreamClosed));
}

#[test]
fn zero_bars_accepts_empty_stream() {
    let bytes: Vec<u8> = Vec::new();
    assert_eq!(decode_frame(&bytes, 0), Ok(Vec::new()));
}

#[test]
fn read_failures_are_classified() {
    assert_eq!(classify_read_failure(true), ProducerError::StreamClosed);
    assert_eq!(classify_read_failure(false), ProducerError::StreamError);
}

#[test]
fn normalize_endpoints_and_range() {
    let mags = normalize(&vec![0u16, 65535, 32768]);
    assert_eq!(mags.len(), 3);
    // 0 normalizes to exactly 0 and 65535 to exactly 1
    assert!(mags[0].eq_value(&Rat { num: 0, den: 1 }));
    assert!(mags[1].eq_value(&Rat { num: 1, den: 1 }));
    // every normalized value lies in [0, 1]
    for m in &mags {
        assert!(m.den > 0);
        assert!(0 <= m.num && m.num <= m.den);
    }
    // the divisor is the largest 16-bit value, not a sentinel
    assert_eq!(mags[2], Rat { num: 32768, den: 65535 });
}
