use robot_runner::device::{
    describe_device, devices_args, get_connected_devices, is_ready, parse_device_list,
    property_args, Device, Listed,
};
use robot_runner::network::{
    adb_connect, adb_disconnect, adb_pair, connect_args, disconnect_args, get_device_ip,
    ifconfig_args, ip_from_ifconfig, ip_from_route, pair_args, route_args, target,
};
use robot_runner::packages::{
    clear_package, disable_package, enable_package, get_installed_packages, install_package,
    list_packages_args, parse_packages, uninstall_package, PackageInfo,
};

fn strings(items: &[&str]) -> Vec<String> {
    items.iter().map(|s| s.to_string()).collect()
}

fn listed(udid: &str, state: &str) -> Listed {
    Listed { udid: udid.to_string(), state: state.to_string() }
}

const LISTING: &str = "List of devices attached\nemulator-5554          device product:sdk model:Pixel transport_id:1\nR58M123                unauthorized usb:1-1\n\nlonely\n0a1b offline\n";

#[test]
fn device_commands() {
    assert_eq!(devices_args(), strings(&["devices", "-l"]));
    assert_eq!(
        property_args("emulator-5554", "ro.product.model"),
        strings(&["-s", "emulator-5554", "shell", "getprop", "ro.product.model"])
    );
}

#[test]
fn device_list_is_parsed() {
    assert_eq!(
        parse_device_list(LISTING),
        vec![listed("emulator-5554", "device"), listed("R58M123", "unauthorized"), listed("0a1b", "offline")]
    );
    assert_eq!(parse_device_list(""), vec![]);
    assert_eq!(parse_device_list("List of devices attached\n"), vec![]);
    assert_eq!(parse_device_list("a device\n"), vec![]);
    assert_eq!(parse_device_list("heading\n  x   device  \n"), vec![listed("x", "device")]);
}

#[test]
fn device_list_of_a_failed_command() {
    assert_eq!(get_connected_devices(false, LISTING, "adb: no server"), Err("adb: no server".to_string()));
    assert_eq!(
        get_connected_devices(true, "h\nx device", "ignored"),
        Ok(vec![listed("x", "device")])
    );
}

#[test]
fn ready_device_is_described_by_its_properties() {
    assert!(is_ready(&listed("x", "device")));
    assert!(!is_ready(&listed("x", "offline")));
    assert_eq!(
        describe_device(listed("x", "device"), Some("Pixel 7\n"), Some(" 14 \r\n")),
        Device {
            udid: "x".to_string(),
            model: "Pixel 7".to_string(),
            state: "device".to_string(),
            product: String::new(),
            transport_id: String::new(),
            android_version: Some("14".to_string()),
        }
    );
    assert_eq!(
        describe_device(listed("x", "device"), None, None),
        Device {
            udid: "x".to_string(),
            model: "Unknown".to_string(),
            state: "device".to_string(),
            product: String::new(),
            transport_id: String::new(),
            android_version: Some("Unknown".to_string()),
        }
    );
}

#[test]
fn other_device_is_unknown() {
    assert_eq!(
        describe_device(listed("y", "unauthorized"), Some("Pixel"), Some("14")),
        Device {
            udid: "y".to_string(),
            model: "Unknown".to_string(),
            state: "unauthorized".to_string(),
            product: String::new(),
            transport_id: String::new(),
            android_version: None,
        }
    );
}

fn package(name: &str, path: &str, is_system: bool, is_disabled: bool) -> PackageInfo {
    PackageInfo { name: name.to_string(), path: path.to_string(), is_system, is_disabled }
}

const PACKAGES: &str = "package:/data/app/~~abc==/com.zeta-1/base.apk=com.zeta\npackage:/system/app/Clock/Clock.apk=com.android.clock\nnoise\npackage:/product/app/Maps.apk=com.maps \npackage:/vendor/x.apk=com.vendor\npackage:/apex/y.apk=com.apex\npackage:no-separator\n";

#[test]
fn packages_are_parsed_in_order() {
    assert_eq!(
        parse_packages(PACKAGES, "package:com.maps\npackage: com.zeta \nother\n"),
        vec![
            package("com.zeta", "/data/app/~~abc==/com.zeta-1/base.apk", false, true),
            package("com.android.clock", "/system/app/Clock/Clock.apk", true, false),
            package("com.maps", "/product/app/Maps.apk", true, true),
            package("com.vendor", "/vendor/x.apk", true, false),
            package("com.apex", "/apex/y.apk", true, false),
        ]
    );
}

#[test]
fn packages_are_sorted_by_name() {
    let sorted = get_installed_packages(PACKAGES, "");
    let names: Vec<&str> = sorted.iter().map(|p| p.name.as_str()).collect();
    assert_eq!(names, vec!["com.android.clock", "com.apex", "com.maps", "com.vendor", "com.zeta"]);
    assert!(sorted.iter().all(|p| !p.is_disabled));
    assert_eq!(get_installed_packages("", ""), vec![]);
}

#[test]
fn equal_names_keep_their_order() {
    let sorted = get_installed_packages("package:/b=same\npackage:/a=same\npackage:/c=aaa\n", "");
    assert_eq!(
        sorted,
        vec![package("aaa", "/c", false, false), package("same", "/b", false, false), package("same", "/a", false, false)]
    );
}

#[test]
fn sorting_matches_std_on_names() {
    let names = ["b", "a", "ab", "", "B", "é", "a b", "aa", "Z", "a"];
    let listing: String = names.iter().map(|n| format!("package:/p={}\n", n)).collect();
    let mut expected: Vec<String> = names.iter().map(|n| n.trim().to_string()).collect();
    expected.sort();
    let sorted: Vec<String> = get_installed_packages(&listing, "").into_iter().map(|p| p.name).collect();
    assert_eq!(sorted, expected);
}

#[test]
fn package_commands() {
    assert_eq!(list_packages_args("dev", false), strings(&["-s", "dev", "shell", "pm", "list", "packages", "-f"]));
    assert_eq!(list_packages_args("", true), strings(&["shell", "pm", "list", "packages", "-d"]));
    assert_eq!(uninstall_package("dev", "com.x"), strings(&["-s", "dev", "uninstall", "com.x"]));
    assert_eq!(enable_package("dev", "com.x"), strings(&["-s", "dev", "shell", "pm", "enable", "com.x"]));
    assert_eq!(
        disable_package("dev", "com.x"),
        strings(&["-s", "dev", "shell", "pm", "disable-user", "--user", "0", "com.x"])
    );
    assert_eq!(clear_package("", "com.x"), strings(&["shell", "pm", "clear", "com.x"]));
    assert_eq!(install_package("dev", "/tmp/a.apk"), strings(&["-s", "dev", "install", "-r", "/tmp/a.apk"]));
}

#[test]
fn address_from_the_routing_table() {
    assert_eq!(route_args("dev"), strings(&["-s", "dev", "shell", "ip", "route"]));
    assert_eq!(
        ip_from_route("10.0.0.0/8 dev rmnet0 src 10.1.2.3\n192.168.1.0/24 dev wlan0 proto kernel scope link src 192.168.1.5\n"),
        Some("192.168.1.5".to_string())
    );
    assert_eq!(ip_from_route("192.168.1.0/24 dev wlan0 proto kernel scope link src"), None);
    assert_eq!(ip_from_route("dev wlan0 mysrc 1.2.3.4"), None);
    assert_eq!(ip_from_route("dev wlan0 src\ndev wlan0 src 5.6.7.8 src 9.9.9.9"), Some("5.6.7.8".to_string()));
    assert_eq!(ip_from_route(""), None);
}

#[test]
fn address_from_the_interface_report() {
    assert_eq!(ifconfig_args("dev"), strings(&["-s", "dev", "shell", "ifconfig", "wlan0"]));
    assert_eq!(
        ip_from_ifconfig("wlan0 Link encap:Ethernet\n  inet addr:192.168.1.5  Bcast:192.168.1.255"),
        Some("192.168.1.5".to_string())
    );
    assert_eq!(ip_from_ifconfig("inet addr:192.168.1.5"), None);
    assert_eq!(ip_from_ifconfig("inet addr: x"), Some(String::new()));
    assert_eq!(ip_from_ifconfig("no address"), None);
}

#[test]
fn device_ip_tries_both() {
    let route = "192.168.1.0/24 dev wlan0 src 192.168.1.5";
    let ifconfig = "inet addr:10.0.0.2 Bcast";
    assert_eq!(get_device_ip(Some(route), Some(ifconfig)), Ok("192.168.1.5".to_string()));
    assert_eq!(get_device_ip(Some("nothing"), Some(ifconfig)), Ok("10.0.0.2".to_string()));
    assert_eq!(get_device_ip(None, Some(ifconfig)), Ok("10.0.0.2".to_string()));
    assert_eq!(get_device_ip(Some(route), None), Ok("192.168.1.5".to_string()));
    assert_eq!(get_device_ip(None, None), Err("Could not detect device IP via ADB".to_string()));
    assert_eq!(get_device_ip(Some(""), Some("")), Err("Could not detect device IP via ADB".to_string()));
}

#[test]
fn wireless_commands() {
    assert_eq!(target("192.168.1.5", "5555"), "192.168.1.5:5555");
    assert_eq!(connect_args("192.168.1.5", "5555"), strings(&["connect", "192.168.1.5:5555"]));
    assert_eq!(pair_args("192.168.1.5", "5555", "123456"), strings(&["pair", "192.168.1.5:5555", "123456"]));
    assert_eq!(disconnect_args("h", "1"), strings(&["disconnect", "h:1"]));
}

#[test]
fn wireless_replies() {
    assert_eq!(adb_connect(true, "connected to h:1\n", ""), Ok("connected to h:1\n".to_string()));
    assert_eq!(
        adb_connect(true, "unable to connect to h:1", "e"),
        Err("Connection failed: unable to connect to h:1 e".to_string())
    );
    assert_eq!(
        adb_connect(true, "failed to connect to h:1", ""),
        Err("Connection failed: failed to connect to h:1 ".to_string())
    );
    assert_eq!(adb_connect(false, "o", "e"), Err("Connection failed: o e".to_string()));
    assert_eq!(adb_pair(true, "Successfully paired", ""), Ok("Successfully paired".to_string()));
    assert_eq!(adb_pair(false, "o", "e"), Err("Pairing failed: o e".to_string()));
    assert_eq!(adb_disconnect("disconnected h:1\n"), "disconnected h:1\n");
}
