use rradio_lcd_driver::system::{
    get_cpu_temperature, earlier_instances, find_from, parse_integer, get_local_ip_address,
    trim_leading_padding, get_wifi_signal_strength, Interface, ProcessEntry,
};

const WIRELESS: &str = "Inter-| sta-|   Quality        |   Discarded packets               | Missed | WE\n face | tus | link level noise |  nwid  crypt   frag  retry   misc | beacon | 22\n wlan0: 0000   54.  -56.  -256        0      0      0      0     57        0\n";

fn process(pid: i32, name: &str) -> ProcessEntry {
    ProcessEntry { pid, name: name.to_string() }
}

fn interface(is_up: bool, is_loopback: bool, addresses: &[&str]) -> Interface {
    Interface {
        is_up,
        is_loopback,
        ipv4_addresses: addresses.iter().map(|a| a.to_string()).collect(),
    }
}

#[test]
fn temperature_is_whole_degrees_of_thousandths() {
    assert_eq!(get_cpu_temperature("47236\n"), Some(47));
    assert_eq!(get_cpu_temperature("999"), Some(0));
    assert_eq!(get_cpu_temperature("1000"), Some(1));
    assert_eq!(get_cpu_temperature("  52000 \r\n"), Some(52));
    assert_eq!(get_cpu_temperature("\u{a0}52000\u{3000}"), Some(52));
    assert_eq!(get_cpu_temperature("2147483647"), Some(2147483));
}

#[test]
fn temperature_below_zero_rounds_towards_zero() {
    assert_eq!(get_cpu_temperature("-1500\n"), Some(-1));
    assert_eq!(get_cpu_temperature("-999\n"), Some(0));
    assert_eq!(get_cpu_temperature("-2147483648"), Some(-2147483));
}

#[test]
fn temperature_that_is_no_number_is_absent() {
    assert_eq!(get_cpu_temperature(""), None);
    assert_eq!(get_cpu_temperature("\n"), None);
    assert_eq!(get_cpu_temperature("hot"), None);
    assert_eq!(get_cpu_temperature("47 236"), None);
    assert_eq!(get_cpu_temperature("47.2"), None);
    assert_eq!(get_cpu_temperature("2147483648"), None);
    assert_eq!(get_cpu_temperature("-2147483649"), None);
    assert_eq!(get_cpu_temperature("99999999999999999999999999"), None);
}

#[test]
fn integers_are_read_as_std_reads_them() {
    for text in [
        "0", "-0", "+0", "7", "+7", "-7", "0007", "-0007", "2147483647", "-2147483648",
        "2147483648", "-2147483649", "", "-", "+", "--1", "+-1", "1-", "12a", "a12", " 1", "1 ",
        "00000000000000000000001", "4294967296", "\u{664}",
    ] {
        assert_eq!(parse_integer(text), text.parse::<i32>().ok());
    }
}

#[test]
fn leading_padding_is_trimmed() {
    assert_eq!(trim_leading_padding(" \t\r\n x "), "x ");
    assert_eq!(trim_leading_padding("x"), "x");
    assert_eq!(trim_leading_padding("   "), "");
    assert_eq!(trim_leading_padding(""), "");
    assert_eq!(trim_leading_padding("\u{a0}\u{2028}\u{c}x"), "x");
    for code in 0..=0x10ffffu32 {
        if let Some(ch) = char::from_u32(code) {
            let text = format!("{}x", ch);
            assert_eq!(trim_leading_padding(&text), text.trim_start());
        }
    }
}

#[test]
fn wifi_strength_is_the_level_of_the_first_wireless_interface() {
    assert_eq!(get_wifi_signal_strength(WIRELESS), "-56");
    assert_eq!(get_wifi_signal_strength("wlan1: 0000 70. -40. -256"), "-40");
}

#[test]
fn wifi_strength_without_interface_is_an_error_word() {
    assert_eq!(get_wifi_signal_strength(""), "er2");
    assert_eq!(get_wifi_signal_strength("Inter-| sta-|\n face | tus |\n"), "er2");
    assert_eq!(get_wifi_signal_strength("wlan0: 0000 54. 56. 256"), "er2");
    assert_eq!(get_wifi_signal_strength("wlan0: 0000 54 -56 -256"), "er2");
    assert_eq!(get_wifi_signal_strength("wlan"), "er2");
    assert_eq!(get_wifi_signal_strength("wlan-5."), "er2");
    assert_eq!(get_wifi_signal_strength("wlan0-5."), "-5");
}

#[test]
fn find_from_gives_the_first_place() {
    assert_eq!(find_from("abcabc", "bc", 0), Some(1));
    assert_eq!(find_from("abcabc", "bc", 1), Some(1));
    assert_eq!(find_from("abcabc", "bc", 2), Some(4));
    assert_eq!(find_from("abcabc", "bc", 5), None);
    assert_eq!(find_from("abcabc", "bc", 100), None);
    assert_eq!(find_from("abc", "abcd", 0), None);
    assert_eq!(find_from("abc", "", 3), Some(3));
    assert_eq!(find_from("\u{e9}\u{e9}x", "x", 0), Some(2));
}

#[test]
fn earlier_instances_share_the_name_but_not_the_pid() {
    let processes = vec![
        process(1, "init"),
        process(40, "rradio-lcd-driv"),
        process(41, "rradio"),
        process(57, "rradio-lcd-driv"),
        process(90, "rradio-lcd-driv"),
    ];
    assert_eq!(earlier_instances(57, "rradio-lcd-driv", &processes), vec![40, 90]);
    assert_eq!(earlier_instances(57, "bash", &processes), Vec::<i32>::new());
    assert_eq!(earlier_instances(1, "init", &processes), Vec::<i32>::new());
    assert_eq!(earlier_instances(57, "init", &Vec::new()), Vec::<i32>::new());
}

#[test]
fn local_address_is_the_last_that_qualifies() {
    let interfaces = vec![
        interface(true, true, &["127.0.0.1"]),
        interface(true, false, &["192.168.0.7", "192.168.0.8"]),
        interface(false, false, &["10.0.0.1"]),
        interface(true, false, &[]),
    ];
    assert_eq!(get_local_ip_address(&interfaces), "192.168.0.8");
    let two = vec![interface(true, false, &["192.168.0.7"]), interface(true, false, &["10.1.1.1"])];
    assert_eq!(get_local_ip_address(&two), "10.1.1.1");
}

#[test]
fn local_address_without_interface_says_so() {
    assert_eq!(get_local_ip_address(&Vec::new()), "bad Local IP address");
    let only_loopback = vec![interface(true, true, &["127.0.0.1"])];
    assert_eq!(get_local_ip_address(&only_loopback), "bad Local IP address");
}
