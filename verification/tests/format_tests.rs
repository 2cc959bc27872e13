use cbuildrt::digits::{format_map_line, u32_decimal};
use cbuildrt::pathenv::path_for_uid;
use cbuildrt::paths::concat_absolute;

#[test]
fn decimal_renders_single_digits() {
    assert_eq!(u32_decimal(0), "0");
    assert_eq!(u32_decimal(7), "7");
}

#[test]
fn decimal_renders_multi_digit_values() {
    assert_eq!(u32_decimal(10), "10");
    assert_eq!(u32_decimal(1000), "1000");
    assert_eq!(u32_decimal(4294967295), "4294967295");
}

#[test]
fn map_line_is_inside_host_width_one() {
    assert_eq!(format_map_line(1000, 1000), "1000 1000 1");
    assert_eq!(format_map_line(0, 1234), "0 1234 1");
    assert_eq!(format_map_line(65534, 0), "65534 0 1");
}

#[test]
fn path_for_root_uid_includes_sbin_directories() {
    assert_eq!(
        path_for_uid(0),
        "/usr/local/sbin:/usr/local/bin:/usr/sbin:/usr/bin:/sbin:/bin"
    );
}

#[test]
fn path_for_non_root_uid_is_user_style() {
    assert_eq!(path_for_uid(1000), "/usr/local/bin:/usr/bin:/bin");
    assert_eq!(path_for_uid(1), "/usr/local/bin:/usr/bin:/bin");
}

#[test]
fn concat_absolute_joins_under_base() {
    assert_eq!(concat_absolute("/sandbox", "/dev/pts"), "/sandbox/dev/pts");
    assert_eq!(concat_absolute("/sandbox", "/data"), "/sandbox/data");
}

#[test]
fn concat_absolute_keeps_single_separator_after_trailing_slash() {
    assert_eq!(concat_absolute("/sandbox/", "/data"), "/sandbox/data");
}

#[test]
fn concat_absolute_edge_shapes() {
    assert_eq!(concat_absolute("/", "/x"), "/x");
    assert_eq!(concat_absolute("/s", "/"), "/s/");
}
