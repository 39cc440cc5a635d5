use tmt_core::sysinfo::{get_os_release_key, get_processor_key};
use tmt_core::text::{field_after, strip};

fn lines(text: &str) -> Vec<String> {
    text.lines().map(|l| l.to_string()).collect()
}

#[test]
fn quotes_are_stripped_and_fields_cut() {
    assert_eq!(strip("\"Debian\"", '"'), "Debian");
    assert_eq!(strip("\"\"a\"b\"\"", '"'), "a\"b");
    assert_eq!(strip("\"\"", '"'), "");
    assert_eq!(strip("plain", '"'), "plain");
    assert_eq!(field_after("a=b=c", '='), Some("b"));
    assert_eq!(field_after("a=", '='), Some(""));
    assert_eq!(field_after("a=b", '='), Some("b"));
    assert_eq!(field_after("ab", '='), None);
    for text in ["a=b=c", "=x", "k=\"v\"", "none", "", "=="] {
        assert_eq!(field_after(text, '='), text.split('=').nth(1));
    }
}

#[test]
fn the_system_tells_its_name() {
    let release = lines(
        "NAME=\"Debian GNU/Linux\"\nPRETTY_NAME=\"Debian GNU/Linux 12 (bookworm)\"\nID=debian\nVERSION_ID=\"12\"\nBROKEN\n",
    );
    assert_eq!(
        get_os_release_key(&release, "PRETTY_NAME"),
        Some("Debian GNU/Linux 12 (bookworm)".to_string())
    );
    assert_eq!(get_os_release_key(&release, "ID"), Some("debian".to_string()));
    assert_eq!(get_os_release_key(&release, "NAME"), Some("Debian GNU/Linux".to_string()));
    assert_eq!(get_os_release_key(&release, "VERSION"), Some("12".to_string()));
    assert_eq!(get_os_release_key(&release, "BUILD_ID"), None);
    assert_eq!(get_os_release_key(&release, "BROKEN"), None);
    assert_eq!(get_os_release_key(&Vec::new(), "ID"), None);
}

#[test]
fn a_processor_tells_its_name() {
    let info = lines(
        "processor\t: 0\nvendor_id\t: GenuineIntel\nmodel name\t: Intel(R) Core(TM) i7 : fast\n\nprocessor\t: 1\nmodel name\t: Other\nflags\n",
    );
    assert_eq!(get_processor_key(&info, 0, "model name"), Some("Intel(R) Core(TM) i7".to_string()));
    assert_eq!(get_processor_key(&info, 1, "model name"), Some("Other".to_string()));
    assert_eq!(get_processor_key(&info, 2, "model name"), None);
    assert_eq!(get_processor_key(&info, 0, "vendor_id"), Some("GenuineIntel".to_string()));
    assert_eq!(get_processor_key(&info, 1, "processor"), Some("1".to_string()));
    assert_eq!(get_processor_key(&info, 1, "flags"), None);
    assert_eq!(get_processor_key(&info, 0, "cache"), None);
    let headless = lines("model name : first\nprocessor : 3\nmodel name : second\n");
    assert_eq!(get_processor_key(&headless, 0, "model name"), Some("first".to_string()));
    assert_eq!(get_processor_key(&headless, 3, "model name"), Some("second".to_string()));
    let broken = lines("processor : x\nmodel name : never\n");
    assert_eq!(get_processor_key(&broken, 0, "model name"), None);
    let wide = lines("processor : 256\nmodel name : never\n");
    assert_eq!(get_processor_key(&wide, 0, "model name"), None);
    let bare = lines("processor\nmodel name : never\n");
    assert_eq!(get_processor_key(&bare, 0, "model name"), None);
}
