use siege::audio::{wav, RATE};

fn le32(x: u32) -> [u8; 4] {
    x.to_le_bytes()
}

#[test]
fn wav_header_and_samples_are_exact() {
    let samples: [i16; 5] = [0, 1, -1, i16::MAX, i16::MIN];
    let out = wav(&samples);
    assert_eq!(out.len(), 44 + 10);
    let mut expected: Vec<u8> = Vec::new();
    expected.extend_from_slice(b"RIFF");
    expected.extend_from_slice(&le32(46));
    expected.extend_from_slice(b"WAVE");
    expected.extend_from_slice(b"fmt ");
    expected.extend_from_slice(&le32(16));
    expected.extend_from_slice(&[1, 0, 1, 0]);
    expected.extend_from_slice(&le32(22_050));
    expected.extend_from_slice(&le32(44_100));
    expected.extend_from_slice(&[2, 0, 16, 0]);
    expected.extend_from_slice(b"data");
    expected.extend_from_slice(&le32(10));
    expected.extend_from_slice(&[0x00, 0x00, 0x01, 0x00, 0xff, 0xff, 0xff, 0x7f, 0x00, 0x80]);
    assert_eq!(out, expected);
    assert_eq!(RATE, 22_050);
}

#[test]
fn empty_wav_is_a_bare_header() {
    let out = wav(&[]);
    assert_eq!(out.len(), 44);
    assert_eq!(&out[0..4], b"RIFF");
    assert_eq!(&out[4..8], &le32(36));
    assert_eq!(&out[36..40], b"data");
    assert_eq!(&out[40..44], &le32(0));
}

#[test]
fn wav_samples_decode_back() {
    let samples: Vec<i16> = (0..2_000).map(|i: i32| ((i * 97) % 65_536 - 32_768) as i16).collect();
    let out = wav(&samples);
    assert_eq!(out.len(), 44 + 2 * samples.len());
    let riff = u32::from_le_bytes([out[4], out[5], out[6], out[7]]) as usize;
    assert_eq!(riff, out.len() - 8);
    for (i, s) in samples.iter().enumerate() {
        let back = i16::from_le_bytes([out[44 + 2 * i], out[45 + 2 * i]]);
        assert_eq!(back, *s);
    }
}
