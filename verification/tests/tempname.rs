use patchall::tempname::{fresh_temp_name, hex_text, temp_name_for, TEMP_PREFIX};

#[test]
fn temp_prefix() {
    assert_eq!(TEMP_PREFIX, "patchall-");
}

#[test]
fn hex_text_pads_with_zeros() {
    assert_eq!(hex_text(0, 8), "00000000");
    assert_eq!(hex_text(1, 8), "00000001");
    assert_eq!(hex_text(0xabc, 8), "00000abc");
    assert_eq!(hex_text(0xdeadbeef, 8), "deadbeef");
    assert_eq!(hex_text(u32::MAX, 8), "ffffffff");
    assert_eq!(hex_text(0x12345678, 8), "12345678");
    assert_eq!(hex_text(0x9abcdef0, 8), "9abcdef0");
}

#[test]
fn hex_text_keeps_the_last_digits() {
    assert_eq!(hex_text(0x1234, 0), "");
    assert_eq!(hex_text(0x1234, 2), "34");
    assert_eq!(hex_text(0x1234, 4), "1234");
    assert_eq!(hex_text(0xf, 12), "00000000000f");
}

#[test]
fn hex_text_agrees_with_formatting() {
    let samples = [0u32, 7, 15, 16, 255, 256, 4095, 65535, 65536, 0x00ff00ff, 0x7fffffff, 0x80000000, u32::MAX];
    for n in samples.iter() {
        assert_eq!(hex_text(*n, 8), format!("{:08x}", n));
    }
}

#[test]
fn temp_name_for_a_number() {
    assert_eq!(temp_name_for(0), "patchall-00000000");
    assert_eq!(temp_name_for(0x1a2b), "patchall-00001a2b");
    assert_eq!(temp_name_for(0xCAFEF00D), "patchall-cafef00d");
    assert_eq!(temp_name_for(u32::MAX), "patchall-ffffffff");
}

#[test]
fn fresh_temp_name_has_the_shape_of_a_temp_name() {
    let mut round = 0;
    while round < 64 {
        let name = fresh_temp_name();
        assert_eq!(name.len(), 17);
        assert!(name.starts_with("patchall-"));
        let digits = &name[9..];
        assert!(digits.chars().all(|c| c.is_ascii_digit() || ('a'..='f').contains(&c)), "{}", name);
        let number = u32::from_str_radix(digits, 16).unwrap();
        assert_eq!(temp_name_for(number), name);
        round += 1;
    }
}

#[test]
fn fresh_temp_names_vary() {
    let first = fresh_temp_name();
    let mut differs = false;
    let mut round = 0;
    while round < 16 {
        if fresh_temp_name() != first {
            differs = true;
        }
        round += 1;
    }
    assert!(differs);
}
