use enchanted_view::color::try_parse;
use enchanted_view::{format_bytes, format_path, num_length};

#[test]
fn num_length_test() {
    assert_eq!(num_length(200, 10), 3);
    assert_eq!(num_length(20540, 10), 5);
    assert_eq!(num_length(0, 10), 1);
    assert_eq!(num_length(3, 10), 1);
    assert_eq!(num_length(14, 10), 2);
    assert_eq!(num_length(200, 10), 3);
    assert_eq!(num_length(200, 16), 2);
    assert_eq!(num_length(200, 2), 8);
}

#[test]
fn num_length_of_largest_value() {
    assert_eq!(num_length(usize::MAX, 2), usize::BITS as usize);
    assert_eq!(num_length(usize::MAX, 16), usize::BITS as usize / 4);
    assert_eq!(num_length(255, 10), 3);
    assert_eq!(num_length(256, 16), 3);
    assert_eq!(num_length(0, 1), 1);
}

#[test]
fn format_bytes_picks_binary_units() {
    assert_eq!(format_bytes(1000), "1000 B");
    assert_eq!(format_bytes(1024), "1024 B");
    assert_eq!(format_bytes(2048), "2.00 KiB");
    assert_eq!(format_bytes(3 * 1024 * 1024 + 1), "3.00 MiB");
}

#[test]
fn format_path_drops_verbatim_prefix() {
    assert_eq!(format_path("\\\\?\\C:\\images\\a.png"), "C:\\images\\a.png");
    assert_eq!(format_path("/home/user/a.png"), "/home/user/a.png");
    assert_eq!(format_path("\\\\?"), "\\\\?");
    assert_eq!(format_path(""), "");
}

#[test]
fn try_parse_three_digits() {
    assert_eq!(try_parse("F80"), Some((255, 136, 0)));
    assert_eq!(try_parse("abc"), Some((170, 187, 204)));
    assert_eq!(try_parse("FG0"), None);
}

#[test]
fn try_parse_six_digits() {
    assert_eq!(try_parse("FF8800"), Some((255, 136, 0)));
    assert_eq!(try_parse("00a0Ff"), Some((0, 160, 255)));
    assert_eq!(try_parse("+F+F+F"), Some((15, 15, 15)));
    assert_eq!(try_parse("FF88Z0"), None);
}

#[test]
fn try_parse_other_lengths() {
    assert_eq!(try_parse(""), None);
    assert_eq!(try_parse("F8"), None);
    assert_eq!(try_parse("FF880"), None);
    assert_eq!(try_parse("FF88000"), None);
}
