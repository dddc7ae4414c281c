use livehls::ts::Ts;
use livehls::utils::{current_time, reading_of};

#[test]
fn segment_names_are_decimal() {
    assert_eq!(Ts::file_name(0), "0.ts");
    assert_eq!(Ts::file_name(7), "7.ts");
    assert_eq!(Ts::file_name(10), "10.ts");
    assert_eq!(Ts::file_name(1905), "1905.ts");
    assert_eq!(Ts::file_name(u32::MAX), "4294967295.ts");
}

#[test]
fn local_path_is_root_slash_name() {
    let ts = Ts::new(String::from("/var/hls/live/cam"));
    assert_eq!(ts.live_path(), "/var/hls/live/cam");
    let (name, path) = ts.locate(42);
    assert_eq!(name, "42.ts");
    assert_eq!(path, "/var/hls/live/cam/42.ts");
    assert!(!ts.uses_remote());
    assert_eq!(Ts::local_path("a/b", 9), "a/b/9.ts");
    let empty = Ts::new(String::new());
    assert_eq!(empty.locate(3).1, "/3.ts");
}

#[test]
fn remote_key_has_upper_case_prefix() {
    assert_eq!(Ts::remote_key("live/cam", 12), "LIVE/CAM/12.ts");
    assert_eq!(Ts::remote_key("Archive", 0), "ARCHIVE/0.ts");
    let ts = Ts::new_remote(String::from("live/cam"));
    assert!(ts.uses_remote());
    assert_eq!(ts.live_path(), "live/cam");
    let (name, key) = ts.locate(300);
    assert_eq!(name, "300.ts");
    assert_eq!(key, "LIVE/CAM/300.ts");
}

#[test]
fn clock_reading_keeps_the_low_32_bits() {
    assert_eq!(reading_of(None), 0);
    assert_eq!(reading_of(Some(0)), 0);
    assert_eq!(reading_of(Some(1_700_000_000)), 1_700_000_000);
    assert_eq!(reading_of(Some(0x1_0000_0005)), 5);
    assert_eq!(reading_of(Some(u64::MAX)), u32::MAX);
}

#[test]
fn clock_is_past_the_epoch() {
    assert!(current_time() > 0);
}
