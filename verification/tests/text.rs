use y86disas::text::{digit, push_decimal, push_hex, push_hex_padded, push_repeat};

#[test]
fn hexadecimal_digits() {
    let digits: Vec<char> = (0..16u8).map(digit).collect();
    assert_eq!(digits.iter().collect::<String>(), "0123456789abcdef");
    assert_eq!(digit(16), 'f');
    assert_eq!(digit(255), 'f');
}

#[test]
fn hexadecimal_numbers() {
    for (n, text) in [
        (0u64, "0"),
        (5, "5"),
        (15, "f"),
        (16, "10"),
        (255, "ff"),
        (0x100, "100"),
        (0xdead_beef, "deadbeef"),
        (u64::MAX, "ffffffffffffffff"),
    ] {
        let mut s = String::from("0x");
        push_hex(&mut s, n);
        assert_eq!(s, format!("0x{}", text));
        assert_eq!(s, format!("0x{:x}", n));
    }
}

#[test]
fn padded_hexadecimal_numbers() {
    for (n, width, text) in [
        (0u64, 3usize, "000"),
        (0, 0, "0"),
        (0, 1, "0"),
        (0xa, 2, "0a"),
        (0xab, 2, "ab"),
        (0xabc, 2, "abc"),
        (0x100, 3, "100"),
        (0x1000, 3, "1000"),
        (0x7, 4, "0007"),
        (0x12345, 4, "12345"),
    ] {
        let mut s = String::new();
        push_hex_padded(&mut s, n, width);
        assert_eq!(s, text);
    }
    for n in 0..5000u64 {
        let mut s = String::new();
        push_hex_padded(&mut s, n, 3);
        assert_eq!(s, format!("{:03x}", n));
    }
}

#[test]
fn decimal_numbers() {
    for n in [0u64, 1, 9, 10, 99, 100, 65535, 1234567890, u64::MAX] {
        let mut s = String::from("n=");
        push_decimal(&mut s, n);
        assert_eq!(s, format!("n={}", n));
    }
}

#[test]
fn repeated_characters() {
    let mut s = String::from("a");
    push_repeat(&mut s, ' ', 3);
    push_repeat(&mut s, 'x', 0);
    push_repeat(&mut s, '0', 2);
    assert_eq!(s, "a   00");
}
