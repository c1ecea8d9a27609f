use sysdash::error::AppError;
use sysdash::network::{pair_addr_lines, IpAddr};
use sysdash::system::{supported, supported_from, SysData};

#[test]
fn from_parts_keeps_given_answers() {
    let d = SysData::from_parts(
        Some(String::from("myhost")),
        Some(String::from("x86_64")),
        7200,
        18500,
        Some(String::from("Linux 6.1")),
        Some(String::from("6.1.0")),
    );
    assert_eq!(d.get_host(), "myhost");
    assert_eq!(d.get_cpu_arch(), "x86_64");
    assert_eq!(d.get_boot_time(), 2);
    assert_eq!(d.get_uptime(), 5);
    assert_eq!(d.get_os_long_ver(), "Linux 6.1");
    assert_eq!(d.get_kernel_ver(), "6.1.0");
}

#[test]
fn from_parts_falls_back_to_placeholder() {
    let d = SysData::from_parts(None, None, 3599, 0, None, None);
    assert_eq!(d.get_host(), "unkonw");
    assert_eq!(d.get_cpu_arch(), "unkonw");
    assert_eq!(d.get_boot_time(), 0);
    assert_eq!(d.get_uptime(), 0);
    assert_eq!(d.get_os_long_ver(), "unkonw");
    assert_eq!(d.get_kernel_ver(), "unkonw");
}

#[test]
fn new_gathers_host_facts() {
    let d = SysData::new();
    assert_eq!(d.get_host(), d.host.as_str());
    assert_eq!(d.get_boot_time(), d.boot_time);
    assert_eq!(d.get_uptime(), d.uptime);
    assert!(!d.get_cpu_arch().is_empty());
}

#[test]
fn default_gathers_host_facts() {
    let d = SysData::default();
    assert_eq!(d.get_kernel_ver(), d.kernel_ver.as_str());
    assert_eq!(d.get_os_long_ver(), d.long_os_ver.as_str());
}

#[test]
fn supported_from_honours_the_probe() {
    assert_eq!(supported_from(true), Ok(()));
    assert_eq!(supported_from(false), Err(AppError::NoSupported));
}

#[test]
fn supported_answers_ok_or_no_supported() {
    match supported() {
        Ok(()) => {}
        Err(e) => assert_eq!(e, AppError::NoSupported),
    }
}

#[test]
fn ip_addr_pairs_the_lines() {
    let ip = IpAddr::new(String::from("\tIPv4:10.0.0.2"), String::from("\tIPv6:::1"));
    assert_eq!(ip.ipv4, "\tIPv4:10.0.0.2");
    assert_eq!(ip.ipv6, "\tIPv6:::1");
}

#[test]
fn exactly_two_lines_make_an_address_pair() {
    let pair = pair_addr_lines(vec![
        String::from("\tIPv6:fe80::1"),
        String::from("\tIPv4:10.0.0.2"),
    ]);
    let ip = pair.expect("two lines pair up");
    assert_eq!(ip.ipv4, "\tIPv6:fe80::1");
    assert_eq!(ip.ipv6, "\tIPv4:10.0.0.2");
}

#[test]
fn other_line_counts_make_no_address_pair() {
    assert!(pair_addr_lines(Vec::new()).is_none());
    assert!(pair_addr_lines(vec![String::from("\tIPv6:fe80::1")]).is_none());
    assert!(pair_addr_lines(vec![
        String::from("a"),
        String::from("b"),
        String::from("c"),
    ])
    .is_none());
}
