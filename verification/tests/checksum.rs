//! Checksum behaviour: zero-sum sequences validate, and every single-byte
//! mutation of a valid structure is caught.
use bootsys::acpi::{acpi_calc_checksum, checksum_valid};

fn balance(buf: &mut Vec<u8>, off: usize, len: usize) {
    // Set the last byte of the range so the range sums to 0 mod 256.
    let sum: u32 = buf[off..off + len - 1].iter().map(|b| *b as u32).sum();
    buf[off + len - 1] = (256 - (sum % 256) as u16) as u8;
}

#[test]
fn zero_sum_sequences_validate() {
    let mut buf = vec![0u8; 32];
    assert!(checksum_valid(&buf, 0, 32));

    for (i, b) in buf.iter_mut().enumerate() {
        *b = (i * 37) as u8;
    }
    balance(&mut buf, 0, 32);
    assert!(checksum_valid(&buf, 0, 32));
    assert_eq!(acpi_calc_checksum(&buf, 0, 32), 0);
}

#[test]
fn checksum_exact_value() {
    let buf = [1u8, 2, 3, 250];
    assert_eq!(acpi_calc_checksum(&buf, 0, 4), 0);
    assert_eq!(acpi_calc_checksum(&buf, 0, 3), 6);
    assert_eq!(acpi_calc_checksum(&buf, 1, 3), 255);
    assert_eq!(acpi_calc_checksum(&buf, 0, 0), 0);
}

#[test]
fn single_byte_mutation_always_detected() {
    // Exhaustive small-scale fuzz: a few valid 6-byte structures, every
    // position, every wrong byte value.
    for seed in 0u8..4 {
        let mut base = vec![seed, 7, 91, 200, 13, 0];
        balance(&mut base, 0, 6);
        assert!(checksum_valid(&base, 0, 6));
        for pos in 0..6 {
            for delta in 1u16..256 {
                let mut mutated = base.clone();
                mutated[pos] = ((base[pos] as u16 + delta) % 256) as u8;
                assert!(
                    !checksum_valid(&mutated, 0, 6),
                    "mutation at {} by {} went undetected",
                    pos,
                    delta
                );
            }
        }
    }
}

#[test]
fn checksum_over_subrange_only() {
    // Bytes outside the declared range must not affect validity.
    let mut buf = vec![0u8; 16];
    buf[0] = 128;
    buf[7] = 128;
    buf[8] = 77;
    assert!(checksum_valid(&buf, 0, 8));
    assert!(!checksum_valid(&buf, 0, 9));
}
