use odt_creator::launch::{launcher_commands, Platform};

fn words(cmds: &[Vec<String>]) -> Vec<Vec<&str>> {
    cmds.iter().map(|c| c.iter().map(|w| w.as_str()).collect()).collect()
}

#[test]
fn unix_tries_office_suites_then_xdg_open() {
    let cmds = launcher_commands(Platform::OtherUnix, "20250702/report.odt");
    assert_eq!(
        words(&cmds),
        vec![
            vec!["libreoffice", "20250702/report.odt"],
            vec!["openoffice", "20250702/report.odt"],
            vec!["xdg-open", "20250702/report.odt"],
        ]
    );
}

#[test]
fn windows_uses_the_shell_open_association() {
    let cmds = launcher_commands(Platform::Windows, "doc.odt");
    assert_eq!(words(&cmds), vec![vec!["cmd", "/C", "start", "", "doc.odt"]]);
}

#[test]
fn macos_uses_open() {
    let cmds = launcher_commands(Platform::MacOs, "doc.odt");
    assert_eq!(words(&cmds), vec![vec!["open", "doc.odt"]]);
}
