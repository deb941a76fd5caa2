use gst_thumbnailers::encode::{
    cover_thumbnail_png, encode_frame_png, i64_to_decimal, provenance_text_chunks,
    u64_to_decimal, Provenance,
};
use gst_thumbnailers::thumbnail::ThumbnailSource;
use gst_thumbnailers::ErrorKind;

fn decode_png(bytes: &[u8]) -> (u32, u32, Vec<u8>, Vec<(String, String)>) {
    let decoder = png::Decoder::new(std::io::Cursor::new(bytes));
    let mut reader = decoder.read_info().expect("valid PNG expected");
    let mut buf = vec![0u8; reader.output_buffer_size().expect("sane size expected")];
    let info = reader.next_frame(&mut buf).expect("one frame expected");
    assert_eq!(info.color_type, png::ColorType::Rgb);
    buf.truncate(info.buffer_size());
    let texts = reader
        .info()
        .uncompressed_latin1_text
        .iter()
        .map(|c| (c.keyword.clone(), c.text.clone()))
        .collect();
    (info.width, info.height, buf, texts)
}

fn gradient(width: u32, height: u32) -> Vec<u8> {
    let mut data = Vec::new();
    for row in 0..height {
        for col in 0..(3 * width) {
            data.push((row * 7 + col * 3) as u8);
        }
    }
    data
}

#[test]
fn frame_png_roundtrips_pixels() {
    let rgb = gradient(5, 4);
    let bytes = encode_frame_png(5, 4, &rgb, &Vec::new()).expect("encode expected to succeed");
    // really encoded: a PNG signature, not the raw buffer handed back
    assert_eq!(&bytes[..8], &[137, 80, 78, 71, 13, 10, 26, 10]);
    assert_ne!(bytes, rgb);
    let (w, h, pixels, texts) = decode_png(&bytes);
    assert_eq!((w, h), (5, 4));
    assert_eq!(pixels, rgb);
    assert!(texts.is_empty());
}

#[test]
fn frame_png_of_zero_dimension_fails() {
    let r = encode_frame_png(0, 4, &Vec::new(), &Vec::new());
    match r {
        Err(e) => assert_eq!(e.kind, ErrorKind::EncodeFailed),
        Ok(_) => panic!("a zero-width image must not encode"),
    }
}

#[test]
fn frame_png_carries_provenance_chunks() {
    let p = Provenance {
        uri: String::from("file:///tmp/clip.webm"),
        mtime: Some(1700000000),
        size: 123456,
        software: String::from("thumbnailer 1.0"),
    };
    let chunks = provenance_text_chunks(&p);
    let rgb = gradient(2, 2);
    let bytes = encode_frame_png(2, 2, &rgb, &chunks).expect("encode expected to succeed");
    let (_, _, _, texts) = decode_png(&bytes);
    assert_eq!(
        texts,
        vec![
            (String::from("Thumb::URI"), String::from("file:///tmp/clip.webm")),
            (String::from("Thumb::MTime"), String::from("1700000000")),
            (String::from("Thumb::Size"), String::from("123456")),
            (String::from("Software"), String::from("thumbnailer 1.0")),
        ]
    );
}

#[test]
fn missing_mtime_is_omitted_and_never_fails() {
    let p = Provenance {
        uri: String::from("file:///a"),
        mtime: None,
        size: 1,
        software: String::from("t"),
    };
    let chunks = provenance_text_chunks(&p);
    assert_eq!(chunks.len(), 3);
    assert!(chunks.iter().all(|(k, _)| k != "Thumb::MTime"));
    let rgb = gradient(2, 2);
    assert!(encode_frame_png(2, 2, &rgb, &chunks).is_ok());
}

#[test]
fn decimal_formatting_is_exact() {
    assert_eq!(u64_to_decimal(0), "0");
    assert_eq!(u64_to_decimal(7), "7");
    assert_eq!(u64_to_decimal(10), "10");
    assert_eq!(u64_to_decimal(90710), "90710");
    assert_eq!(u64_to_decimal(u64::MAX), "18446744073709551615");
    assert_eq!(i64_to_decimal(-1), "-1");
    assert_eq!(i64_to_decimal(0), "0");
    assert_eq!(i64_to_decimal(i64::MIN), "-9223372036854775808");
    assert_eq!(i64_to_decimal(1700000000), "1700000000");
}

#[test]
fn cover_art_is_rescaled_to_budget() {
    // a 400x200 "cover": encode it as PNG first, then run the cover path
    let rgb = gradient(400, 200);
    let cover = encode_frame_png(400, 200, &rgb, &Vec::new()).expect("encode expected to succeed");
    let thumb = cover_thumbnail_png(&cover, 100).expect("cover path expected to succeed");
    let (w, h, pixels, _) = decode_png(&thumb);
    assert_eq!((w, h), (100, 50));
    assert_eq!(pixels.len(), (3 * 100 * 50) as usize);
    // really resampled from the cover, not handed back unchanged
    assert_ne!(thumb, cover);
}

#[test]
fn small_cover_art_is_not_upscaled() {
    let rgb = gradient(100, 50);
    let cover = encode_frame_png(100, 50, &rgb, &Vec::new()).expect("encode expected to succeed");
    let thumb = cover_thumbnail_png(&cover, 256).expect("cover path expected to succeed");
    let (w, h, _, _) = decode_png(&thumb);
    assert_eq!((w, h), (100, 50));
}

#[test]
fn undecodable_cover_fails_encode() {
    let garbage = vec![0u8, 1, 2, 3, 4, 5, 6, 7];
    match cover_thumbnail_png(&garbage, 128) {
        Err(e) => assert_eq!(e.kind, ErrorKind::EncodeFailed),
        Ok(_) => panic!("garbage bytes must not decode"),
    }
}

#[test]
fn thumbnail_source_encodes_both_variants() {
    let rgb = gradient(3, 3);
    let frame = ThumbnailSource::VideoFrame(3, 3, rgb.clone());
    let frame_png = frame.encode_png(64).expect("frame encode expected to succeed");
    let (w, h, pixels, _) = decode_png(&frame_png);
    assert_eq!((w, h), (3, 3));
    assert_eq!(pixels, rgb);

    let big = gradient(64, 64);
    let cover_bytes = encode_frame_png(64, 64, &big, &Vec::new()).expect("encode expected to succeed");
    let cover = ThumbnailSource::CoverArt(cover_bytes);
    let cover_png = cover.encode_png(32).expect("cover encode expected to succeed");
    let (w2, h2, _, _) = decode_png(&cover_png);
    assert_eq!((w2, h2), (32, 32));
}
