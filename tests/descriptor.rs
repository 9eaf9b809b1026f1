use gla_launcher::os_release::distro_id;
use gla_launcher::text::trim;

#[test]
fn id_from_debian_family_descriptor() {
    assert_eq!(distro_id("ID=ubuntu\nID_LIKE=debian\n"), "ubuntu");
}

#[test]
fn id_value_loses_surrounding_quotes() {
    assert_eq!(distro_id("NAME=\"Fedora Linux\"\nID=\"fedora\"\n"), "fedora");
}

#[test]
fn id_absent_gives_empty() {
    assert_eq!(distro_id("NAME=Alpine\nID_LIKE=debian\n"), "");
    assert_eq!(distro_id(""), "");
}

#[test]
fn id_line_without_trailing_newline() {
    assert_eq!(distro_id("NAME=Arch\nID=arch"), "arch");
}

#[test]
fn id_line_with_crlf_ending() {
    assert_eq!(distro_id("ID=opensuse\r\nNAME=x\r\n"), "opensuse");
}

#[test]
fn id_key_is_trimmed_value_is_not() {
    assert_eq!(distro_id("  ID \t=manjaro\n"), "manjaro");
    assert_eq!(distro_id("ID= debian\n"), " debian");
}

#[test]
fn id_last_entry_wins() {
    assert_eq!(distro_id("ID=debian\nID=linuxmint\n"), "linuxmint");
}

#[test]
fn id_value_splits_on_first_equals_only() {
    assert_eq!(distro_id("# comment\nID=a=b\n"), "a=b");
}

#[test]
fn id_lines_without_equals_are_ignored() {
    assert_eq!(distro_id("ID\nID=fedora\nplain words\n"), "fedora");
}

#[test]
fn trim_removes_unicode_space() {
    assert_eq!(trim("\u{3000} /home/a b \t\n"), "/home/a b");
    assert_eq!(trim("   "), "");
}
