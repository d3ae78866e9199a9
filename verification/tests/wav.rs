use voxlore::audio::wav::{decode_wav, encode_wav, pcm_from_le_bytes, sum_of_squares};

#[test]
fn header_has_the_fixed_layout() {
    let samples: Vec<i16> = vec![0, 1, -1, 32767, -32768];
    let bytes = encode_wav(&samples, 16000);
    assert_eq!(bytes.len(), 54);
    let expected: Vec<u8> = vec![
        b'R', b'I', b'F', b'F', 46, 0, 0, 0, b'W', b'A', b'V', b'E', // RIFF chunk
        b'f', b'm', b't', b' ', 16, 0, 0, 0, 1, 0, 1, 0, // format chunk head
        0x80, 0x3E, 0, 0, 0x00, 0x7D, 0, 0, 2, 0, 16, 0, // rate, byte rate, align, bits
        b'd', b'a', b't', b'a', 10, 0, 0, 0, // data chunk head
        0x00, 0x00, 0x01, 0x00, 0xFF, 0xFF, 0xFF, 0x7F, 0x00, 0x80,
    ];
    assert_eq!(bytes, expected);
}

#[test]
fn empty_recording_is_a_bare_header() {
    let bytes = encode_wav(&[], 44100);
    assert_eq!(bytes.len(), 44);
    assert_eq!(&bytes[4..8], &[36, 0, 0, 0]);
    assert_eq!(&bytes[24..28], &44100u32.to_le_bytes());
    assert_eq!(&bytes[28..32], &88200u32.to_le_bytes());
    assert_eq!(&bytes[40..44], &[0, 0, 0, 0]);
}

#[test]
fn encoding_round_trips() {
    let samples: Vec<i16> = (-300..300).map(|v| (v * 109) as i16).collect();
    for rate in [1u32, 8000, 16000, 48000, 0x7fff_ffff] {
        let bytes = encode_wav(&samples, rate);
        assert_eq!(decode_wav(&bytes), Some((samples.clone(), rate)));
    }
    assert_eq!(decode_wav(&encode_wav(&[], 0)), Some((vec![], 0)));
}

#[test]
fn decoding_refuses_what_is_no_such_file() {
    let good = encode_wav(&[1, 2, 3], 16000);
    assert_eq!(decode_wav(&good[..43]), None);
    assert_eq!(decode_wav(&[]), None);
    let mut odd = good.clone();
    odd.push(0);
    assert_eq!(decode_wav(&odd), None);
    for at in [0usize, 4, 8, 12, 16, 20, 22, 28, 32, 34, 36, 40] {
        let mut bad = good.clone();
        bad[at] ^= 1;
        assert_eq!(decode_wav(&bad), None, "byte {at}");
    }
    let mut stereo = good.clone();
    stereo[22] = 2;
    assert_eq!(decode_wav(&stereo), None);
}

#[test]
fn changing_the_rate_field_alone_is_refused() {
    let mut bytes = encode_wav(&[1, 2, 3], 16000);
    bytes[24] = 0x81;
    assert_eq!(decode_wav(&bytes), None);
}

#[test]
fn raw_bytes_are_read_low_byte_first() {
    assert_eq!(pcm_from_le_bytes(&[0x34, 0x12, 0xFF, 0xFF, 0x00, 0x80]), vec![0x1234, -1, -32768]);
    assert_eq!(pcm_from_le_bytes(&[0x01, 0x00, 0x7F]), vec![1]);
    assert_eq!(pcm_from_le_bytes(&[0x01]), Vec::<i16>::new());
    assert_eq!(pcm_from_le_bytes(&[]), Vec::<i16>::new());
}

#[test]
fn squares_add_up() {
    assert_eq!(sum_of_squares(&[]), 0);
    assert_eq!(sum_of_squares(&[3, -4]), 25);
    assert_eq!(sum_of_squares(&[-32768, 32767]), 1073741824 + 1073676289);
}

#[test]
fn sign_flip_leaves_the_sum_of_squares() {
    let a: Vec<i16> = vec![1, -2, 300, -32767, 0];
    let b: Vec<i16> = a.iter().map(|v| -v).collect();
    assert_eq!(sum_of_squares(&a), sum_of_squares(&b));
}

#[test]
fn constant_amplitude_gives_its_own_level() {
    let amplitude: i16 = -12345;
    let samples = vec![amplitude; 777];
    let sum = sum_of_squares(&samples);
    assert_eq!(sum, 777 * 12345 * 12345);
    let rms = ((sum as f64) / 777.0).sqrt() / 32767.0;
    assert!((rms - 12345.0 / 32767.0).abs() < 1e-12);
}
