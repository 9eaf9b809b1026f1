use gla_launcher::launch::{exit_code_or_sentinel, tag_err_line, tag_out_line, LaunchError};
use gla_launcher::locate::{find_installer_exe, installer_candidate};

#[test]
fn output_lines_carry_their_tags() {
    assert_eq!(tag_out_line("hello"), "[wine] hello");
    assert_eq!(tag_err_line("oops"), "[wine-err] oops");
}

#[test]
fn exit_code_without_code_is_minus_one() {
    assert_eq!(exit_code_or_sentinel(Some(3)), 3);
    assert_eq!(exit_code_or_sentinel(Some(0)), 0);
    assert_eq!(exit_code_or_sentinel(None), -1);
}

#[test]
fn not_found_message_names_path() {
    let e = LaunchError::NotFound("/x/setup.exe".to_string());
    assert_eq!(e.message(), "Executável não encontrado: /x/setup.exe");
}

#[test]
fn candidate_is_under_downloads() {
    assert_eq!(installer_candidate("/home/ana"), "/home/ana/Downloads/gla_installer.exe");
}

#[test]
fn find_installer_depends_on_presence() {
    assert_eq!(
        find_installer_exe("/home/ana", true),
        Some("/home/ana/Downloads/gla_installer.exe".to_string())
    );
    assert_eq!(find_installer_exe("/home/ana", false), None);
}
