use ftp_manager::breadcrumb::breadcrumbs;
use ftp_manager::size::format_size;

#[test]
fn zero_bytes() {
    assert_eq!(format_size(&0), "0 B");
}

#[test]
fn just_below_one_kilobyte() {
    assert_eq!(format_size(&1023), "1023 B");
}

#[test]
fn one_kilobyte() {
    assert_eq!(format_size(&1024), "1.0 KB");
}

#[test]
fn one_megabyte() {
    assert_eq!(format_size(&1048576), "1.0 MB");
}

#[test]
fn one_gigabyte() {
    assert_eq!(format_size(&1073741824), "1.0 GB");
}

#[test]
fn rounds_to_nearest_tenth() {
    // 1100 B = 1.074 KB, shown rounded to 1.1 KB.
    assert_eq!(format_size(&1100), "1.1 KB");
    assert_eq!(format_size(&1536), "1.5 KB");
    // 1280 B = 1.25 KB exactly: the tie goes to the even neighbour.
    assert_eq!(format_size(&1280), "1.2 KB");
    // 1331200 B = 1.269… MB, shown as 1.3 MB.
    assert_eq!(format_size(&1331200), "1.3 MB");
}

#[test]
fn magnitude_grows_with_input() {
    // The displayed magnitude never shrinks across the tier boundaries.
    assert_eq!(format_size(&1048575), "1024.0 KB");
    assert_eq!(format_size(&1048576), "1.0 MB");
    assert_eq!(format_size(&1073741823), "1024.0 MB");
    assert_eq!(format_size(&1073741824), "1.0 GB");
}

#[test]
fn breadcrumbs_of_nested_path() {
    let trail = breadcrumbs("/a/b/c");
    let got: Vec<(&str, &str)> = trail
        .iter()
        .map(|b| (b.name.as_str(), b.path.as_str()))
        .collect();
    assert_eq!(got, vec![("a", "/a"), ("b", "/a/b"), ("c", "/a/b/c")]);
}

#[test]
fn breadcrumbs_of_empty_path() {
    assert!(breadcrumbs("").is_empty());
}

#[test]
fn breadcrumbs_of_root() {
    assert!(breadcrumbs("/").is_empty());
}

#[test]
fn breadcrumbs_ignore_repeated_and_trailing_slashes() {
    let trail = breadcrumbs("//home//user/");
    let got: Vec<(&str, &str)> = trail
        .iter()
        .map(|b| (b.name.as_str(), b.path.as_str()))
        .collect();
    assert_eq!(got, vec![("home", "/home"), ("user", "/home/user")]);
}
