use periph_emu::flash_image::parse_flash_image;

#[test]
fn parses_comma_separated_decimal_lines() {
    assert_eq!(parse_flash_image(b"1,2,3\n255,0\n"), vec![1, 2, 3, 255, 0]);
}

#[test]
fn parses_final_line_without_newline() {
    assert_eq!(parse_flash_image(b"10,20\n30"), vec![10, 20, 30]);
}

#[test]
fn skips_empty_fields() {
    assert_eq!(parse_flash_image(b"1,,2,\n"), vec![1, 2]);
}

#[test]
fn skips_lines_with_malformed_fields() {
    assert_eq!(parse_flash_image(b"1,2,x\n4\n"), vec![4]);
    assert_eq!(parse_flash_image(b"1,256\n7\n"), vec![7]);
    assert_eq!(parse_flash_image(b"-1\n8\n"), vec![8]);
}

#[test]
fn accepts_leading_plus_and_leading_zeros() {
    assert_eq!(parse_flash_image(b"+12,007\n"), vec![12, 7]);
}

#[test]
fn strips_carriage_return_before_newline() {
    assert_eq!(parse_flash_image(b"5,6\r\n7\r\n"), vec![5, 6, 7]);
}

#[test]
fn empty_text_gives_empty_image() {
    assert_eq!(parse_flash_image(b""), Vec::<u8>::new());
    assert_eq!(parse_flash_image(b"\n\n"), Vec::<u8>::new());
}
