use noob_saturator::wav::wav_bytes;

/// The layout a reader that has never seen this code expects: RIFF, the
/// float format chunk, then the data chunk.
fn by_hand(sr: u32, data: &[f32]) -> Vec<u8> {
    let mut b = Vec::new();
    let bytes = (data.len() * 4) as u32;
    b.extend_from_slice(b"RIFF");
    b.extend_from_slice(&(36 + bytes).to_le_bytes());
    b.extend_from_slice(b"WAVEfmt ");
    b.extend_from_slice(&16u32.to_le_bytes());
    b.extend_from_slice(&3u16.to_le_bytes());
    b.extend_from_slice(&1u16.to_le_bytes());
    b.extend_from_slice(&sr.to_le_bytes());
    b.extend_from_slice(&(sr * 4).to_le_bytes());
    b.extend_from_slice(&4u16.to_le_bytes());
    b.extend_from_slice(&32u16.to_le_bytes());
    b.extend_from_slice(b"data");
    b.extend_from_slice(&bytes.to_le_bytes());
    for v in data {
        b.extend_from_slice(&v.to_le_bytes());
    }
    b
}

#[test]
fn a_wav_file_is_laid_out_as_the_format_says() {
    let data = [0.0f32, 1.0, -0.5, 0.25];
    let bits: Vec<u32> = data.iter().map(|v| v.to_bits()).collect();
    let b = wav_bytes(44_100, &bits);
    assert_eq!(b, by_hand(44_100, &data));
    assert_eq!(b.len(), 44 + 16);
    assert_eq!(&b[0..4], b"RIFF");
    assert_eq!(u32::from_le_bytes([b[4], b[5], b[6], b[7]]), 36 + 16);
    assert_eq!(u32::from_le_bytes([b[24], b[25], b[26], b[27]]), 44_100);
    assert_eq!(u32::from_le_bytes([b[28], b[29], b[30], b[31]]), 176_400);
    assert_eq!(f32::from_le_bytes([b[48], b[49], b[50], b[51]]), 1.0);
}

#[test]
fn an_empty_wav_file_is_only_its_header() {
    let b = wav_bytes(48_000, &[]);
    assert_eq!(b, by_hand(48_000, &[]));
    assert_eq!(b.len(), 44);
    assert_eq!(&b[36..40], b"data");
}
