use picokernel::abi::{CLayout, CPixel, Rng, RngRequest, rgb565_pack};
use picokernel::audio::{
    pack_stereo, pack_u8_samples, pwm_divider, u8_pcm_to_pwm, AudioExchange, AUDIO_BUFFER_LEN,
    SILENCE,
};
use picokernel::display::{quantize_rgb565, ScreenBuffer, RGBA};
use picokernel::fs::{name_contains, pack_entry_name, split_extension, DummyTimeSource, Entries, SdCardError};
use picokernel::keyboard::{
    decode_key_status, event_from_fifo, KeyCode, KeyEvent, KeyEventC, KeyState, Modifiers,
};

#[test]
fn key_state_from_byte() {
    assert_eq!(KeyState::from_byte(0), KeyState::Idle);
    assert_eq!(KeyState::from_byte(1), KeyState::Pressed);
    assert_eq!(KeyState::from_byte(2), KeyState::Hold);
    assert_eq!(KeyState::from_byte(3), KeyState::Released);
    assert_eq!(KeyState::from_byte(200), KeyState::Idle);
}

#[test]
fn key_code_bytes() {
    assert_eq!(KeyCode::from_byte(0x01), KeyCode::JoyUp);
    assert_eq!(KeyCode::from_byte(0x0a), KeyCode::Enter);
    assert_eq!(KeyCode::from_byte(0xb1), KeyCode::Esc);
    assert_eq!(KeyCode::from_byte(0x90), KeyCode::F10);
    assert_eq!(KeyCode::from_byte(b'q'), KeyCode::Char('q'));
    assert_eq!(KeyCode::JoyDown.to_byte(), 0x02);
    assert_eq!(KeyCode::Char('z').to_byte(), b'z');
    assert_eq!(KeyCode::Unknown(0xfe).to_byte(), 0xfe);
}

#[test]
fn key_code_round_trip() {
    for v in 0..=255u8 {
        assert_eq!(KeyCode::from_byte(v).to_byte(), v);
    }
}

#[test]
fn key_event_crosses_the_abi() {
    let ev = KeyEvent {
        key: KeyCode::Char('a'),
        state: KeyState::Pressed,
        mods: Modifiers { bits: 4 },
    };
    let c: KeyEventC = ev.to_c();
    assert_eq!(c.key, b'a');
    assert_eq!(c.state, KeyState::Pressed);
    let back = KeyEvent::from_c(&c);
    assert_eq!(back, ev);
}

#[test]
fn key_status_bits() {
    let (caps, num, count) = decode_key_status(0x20 | 0x40 | 5);
    assert!(caps);
    assert!(num);
    assert_eq!(count, 5);
    let (caps, num, count) = decode_key_status(3);
    assert!(!caps);
    assert!(!num);
    assert_eq!(count, 3);
}

#[test]
fn fifo_record_becomes_event() {
    let ev = event_from_fifo(1, 0x05);
    assert_eq!(ev.key, KeyCode::JoyCenter);
    assert_eq!(ev.state, KeyState::Pressed);
    assert_eq!(ev.mods.bits, 0);
    assert!(ev.mods.contains(Modifiers { bits: 0 }));
    assert!(!ev.mods.contains(Modifiers { bits: 1 }));
}

#[test]
fn layout_validity() {
    assert!(CLayout::new(16, 8).is_valid());
    assert!(CLayout::new(0, 1).is_valid());
    assert!(!CLayout::new(16, 0).is_valid()); // zero alignment
    assert!(!CLayout::new(16, 12).is_valid()); // not a power of two
    assert!(!CLayout::new(usize::MAX, 2).is_valid()); // too large
}

#[test]
fn pixel_packing() {
    let p = CPixel::new();
    assert_eq!((p.x, p.y, p.color), (0, 0, 0));
    assert_eq!(rgb565_pack(0x1f, 0x3f, 0x1f), 0xffff);
    assert_eq!(rgb565_pack(0, 0, 0), 0);
    assert_eq!(rgb565_pack(1, 2, 3), 0x0800 + 0x40 + 3);
    // Only the low channel bits take part.
    assert_eq!(rgb565_pack(0xff, 0xff, 0xff), 0xffff);
}

#[test]
fn rng_request_extraction() {
    assert_eq!(Rng::u32_of_request(&RngRequest::U32(77)), 77);
    assert_eq!(Rng::u32_of_request(&RngRequest::U64(77)), 0);
    assert_eq!(Rng::u64_of_request(&RngRequest::U64(1 << 40)), 1 << 40);
    assert_eq!(Rng::u64_of_request(&RngRequest::Bytes(vec![1, 2])), 0);
}

#[test]
fn pwm_word_shape() {
    assert_eq!(u8_pcm_to_pwm(0), 255);
    assert_eq!(u8_pcm_to_pwm(255), 0xff00);
    assert_eq!(u8_pcm_to_pwm(128), 128 * 256 + 127);
    assert_eq!(pack_u8_samples(1, 2), ((256 + 254) << 16) | (2 * 256 + 253));
}

#[test]
fn stereo_packing() {
    let buf = [10u8, 20, 30, 40, 50, 60, 70, 80];
    let (left, right) = pack_stereo(&buf);
    assert_eq!(left.len(), 2);
    assert_eq!(right.len(), 2);
    assert_eq!(left[0], pack_u8_samples(10, 30));
    assert_eq!(right[0], pack_u8_samples(20, 40));
    assert_eq!(left[1], pack_u8_samples(50, 70));
    assert_eq!(right[1], pack_u8_samples(60, 80));
}

#[test]
fn pwm_divider_rate() {
    assert_eq!(pwm_divider(125_000_000, 22050), 125_000_000 / (256 * 22050));
    assert_eq!(pwm_divider(256 * 8000, 8000), 1);
}

#[test]
fn audio_exchange_flow() {
    let mut ex = AudioExchange::new();
    assert!(ex.audio_buffer_ready());
    assert_eq!(ex.pending.len(), AUDIO_BUFFER_LEN);
    assert!(ex.pending.iter().all(|&b| b == SILENCE));

    // A wrong-sized buffer is refused and changes nothing.
    assert!(!ex.send_audio_buffer(&[1, 2, 3]));
    assert!(ex.audio_buffer_ready());

    let frame = vec![9u8; AUDIO_BUFFER_LEN];
    assert!(ex.send_audio_buffer(&frame));
    assert!(!ex.audio_buffer_ready());
    // A second send before the swap is refused.
    assert!(!ex.send_audio_buffer(&frame));

    ex.swap_buffers();
    assert!(ex.audio_buffer_ready());
    assert!(ex.playing.iter().all(|&b| b == 9));
    assert!(ex.pending.iter().all(|&b| b == SILENCE));

    ex.clear();
    assert!(ex.playing.iter().all(|&b| b == SILENCE));
}

#[test]
fn palette_quantization() {
    assert_eq!(quantize_rgb565(&RGBA { r: 255, g: 255, b: 255, a: 0 }), (31, 63, 31));
    assert_eq!(quantize_rgb565(&RGBA { r: 0, g: 0, b: 0, a: 0 }), (0, 0, 0));
    assert_eq!(quantize_rgb565(&RGBA { r: 128, g: 128, b: 128, a: 0 }), (15, 31, 15));
}

#[test]
fn screen_buffer_pixels() {
    let mut sb = ScreenBuffer::new(320, 200).unwrap();
    assert_eq!(sb.pixels.len(), 320 * 200);
    sb.set_pixel(3, 2, 0x5a);
    assert_eq!(sb.get_pixel(3, 2), 0x5a);
    assert_eq!(sb.get_pixel(2, 3), 0);
    assert_eq!(sb.pixels[2 * 320 + 3], 0x5a);
}

#[test]
fn listing_names() {
    let mut e = Entries::new();
    assert_eq!(e.names.len(), 25);
    e.names[0][0] = b'a';
    e.names[0][1] = b'.';
    e.names[0][2] = b'b';
    e.names[3][0] = b'x';
    let names = e.entries();
    assert_eq!(names.len(), 25);
    assert_eq!(names[0], b"a.b");
    assert_eq!(names[1], b"");
    assert_eq!(names[3], b"x");
}

#[test]
fn entry_name_packing() {
    assert_eq!(pack_entry_name(b"hello.bin", 25), b"hello.bin\0");
    // A long name is truncated to leave room for the terminator.
    assert_eq!(pack_entry_name(b"abcdef", 4), b"abc\0");
    assert_eq!(pack_entry_name(b"", 4), b"\0");
}

#[test]
fn storage_odds_and_ends() {
    assert_ne!(SdCardError::Volume0Missing, SdCardError::RootDirMissing);
    let ts = DummyTimeSource {};
    assert_eq!(ts.timestamp(), (2022, 1, 1, 0, 0, 0));
}

#[test]
fn extension_filter() {
    assert!(name_contains(b"hello.bin", b".bin"));
    assert!(name_contains(b"hello.bin", b"hello"));
    assert!(name_contains(b"hello.bin", b"o.b"));
    assert!(!name_contains(b"hello.txt", b".bin"));
    assert!(name_contains(b"anything", b""));
    assert!(!name_contains(b"ab", b"abc"));
}

#[test]
fn extension_split() {
    assert_eq!(split_extension(b"hello.bin"), (b"hello".to_vec(), Some(b"bin".to_vec())));
    assert_eq!(
        split_extension(b"archive.tar.gz"),
        (b"archive.tar".to_vec(), Some(b"gz".to_vec()))
    );
    assert_eq!(split_extension(b"readme"), (b"readme".to_vec(), None));
    assert_eq!(split_extension(b""), (b"".to_vec(), None));
    assert_eq!(split_extension(b"name."), (b"name".to_vec(), Some(b"".to_vec())));
}
