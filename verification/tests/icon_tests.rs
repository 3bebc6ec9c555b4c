use vape::icons::icon_bytes::{any, count, icon_bytes, icon_fits, inverse, position, LF, WHITE};

#[test]
fn position_any_count() {
    let arr = [1u8, 2, 3, 2, 5];
    assert_eq!(position(&arr, 2, 0, 99), 1);
    assert_eq!(position(&arr, 2, 2, 99), 1);
    assert_eq!(position(&arr, 7, 0, 99), 99);
    assert_eq!(position(&arr, 5, 5, 42), 42);
    assert!(any(&arr, 3));
    assert!(!any(&arr, 4));
    assert!(!any(&[], 4));
    assert_eq!(count(&arr, 2), 2);
    assert_eq!(count(&arr, 9), 0);
}

#[test]
fn cross_icon_bytes() {
    let art = "\n█░░░█\n░█░█░\n░░█░░\n░█░█░\n█░░░█\n";
    assert_eq!(icon_bytes(art.as_bytes()), vec![0x88, 0x50, 0x20, 0x50, 0x88]);
}

#[test]
fn wide_icon_two_bytes_per_row() {
    let art = "\n░░░███░░░\n███░░░███\n";
    assert_eq!(icon_bytes(art.as_bytes()), vec![0x1c, 0x00, 0xe3, 0x80]);
}

#[test]
fn icon_without_surrounding_line_ends() {
    let art = "█░\n░█";
    assert_eq!(icon_bytes(art.as_bytes()), vec![0x80, 0x40]);
}

#[test]
fn inverse_flips_and_undoes() {
    let data = [0x00u8, 0xff, 0x5a];
    let inv = inverse(&data);
    assert_eq!(inv, vec![0xff, 0x00, 0xa5]);
    assert_eq!(inverse(&inv), data.to_vec());
}

#[test]
fn markers_are_utf8_tails() {
    assert_eq!("█".as_bytes()[2], WHITE);
    assert_eq!(LF, b'\n');
}

#[test]
fn icon_fits_accepts_only_encodable_art() {
    let ohm = "\n░░░███░░░\n░░█░░░█░░\n░█░░░░░█░\n█░░░░░░░█\n█░░░░░░░█\n█░░░░░░░█\n░█░░░░░█░\n░░█░░░█░░\n░░█░░░█░░\n███░░░███\n";
    assert!(icon_fits(ohm.as_bytes()));
    assert_eq!(icon_bytes(ohm.as_bytes()).len(), 20);
    assert!(!icon_fits(b""));
    assert!(!icon_fits("\n░░░\n".as_bytes()));
    // a second row longer than the first runs past the bitmap
    assert!(!icon_fits("\n█\n██████████\n".as_bytes()));
}
