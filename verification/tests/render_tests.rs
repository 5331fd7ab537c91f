use rscom::render::render;

fn expected_byte(b: u8, threshold: u8) -> Vec<u8> {
    if b < threshold {
        format!("<0x{:02X}>", b).into_bytes()
    } else {
        vec![b]
    }
}

#[test]
fn threshold_zero_is_raw_for_every_byte() {
    for b in 0..=255u8 {
        assert_eq!(render(&[b], 0), vec![b]);
    }
}

#[test]
fn threshold_one_escapes_only_nul() {
    for b in 0..=255u8 {
        assert_eq!(render(&[b], 1), expected_byte(b, 1));
    }
    assert_eq!(render(&[0x00], 1), b"<0x00>".to_vec());
}

#[test]
fn threshold_max_escapes_all_but_max() {
    for b in 0..=255u8 {
        assert_eq!(render(&[b], 255), expected_byte(b, 255));
    }
    assert_eq!(render(&[0xFF], 255), vec![0xFF]);
    assert_eq!(render(&[0xFE], 255), b"<0xFE>".to_vec());
}

#[test]
fn byte_equal_to_threshold_stays_raw() {
    assert_eq!(render(&[0x20], 0x20), vec![0x20]);
    assert_eq!(render(&[0x1F], 0x20), b"<0x1F>".to_vec());
}

#[test]
fn batch_order_is_preserved() {
    let out = render(&[0x01, 0x41, 0x02, 0x42], 0x10);
    assert_eq!(out, b"<0x01>A<0x02>B".to_vec());
}

#[test]
fn empty_batch_renders_empty() {
    assert_eq!(render(&[], 0xFF), Vec::<u8>::new());
}

#[test]
fn hex_digits_are_uppercase() {
    assert_eq!(render(&[0xAB], 0xFF), b"<0xAB>".to_vec());
    assert_eq!(render(&[0x0F], 0xFF), b"<0x0F>".to_vec());
}

#[test]
fn rendering_twice_is_identical() {
    let batch: Vec<u8> = (0..=255u8).collect();
    for t in [0u8, 1, 31, 255] {
        let first = render(&batch, t);
        let second = render(&batch, t);
        assert_eq!(first, second);
    }
}
