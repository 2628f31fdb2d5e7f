use histview::title::{extra_info, focus_line, generate_title, Location, TitleContext};

fn env(focus_session: Option<&str>, focus_dir: Option<&str>) -> TitleContext {
    TitleContext {
        session_id: String::from("42"),
        dir: String::from("/srv/app"),
        host: String::from("box"),
        focus_session: focus_session.map(String::from),
        focus_dir: focus_dir.map(String::from),
    }
}

#[test]
fn session_title_leads_with_session_label() {
    let t = generate_title(&Location::Session, &env(None, None));
    assert!(t.starts_with("Session location history 42\n"));
    assert!(!t.starts_with("Everywhere"));
    assert!(t.contains(" ┃ Session ┃ Directory │"));
    assert!(t.ends_with("━━━\n"));
}

#[test]
fn everywhere_title_omits_extra_info() {
    let t = generate_title(&Location::Everywhere, &env(None, None));
    assert!(t.starts_with("Everywhere \n"));
    assert!(!t.contains("42"));
    assert!(!t.contains("/srv/app"));
    assert!(!t.contains("box"));
    assert!(t.contains("│ Host ┃ Everywhere ┃"));
}

#[test]
fn directory_and_machine_titles() {
    let d = generate_title(&Location::Directory, &env(None, None));
    assert!(d.starts_with("Directory location history /srv/app\n"));
    assert!(d.contains("│ Session ┃ Directory ┃ Host │"));
    let m = generate_title(&Location::Machine, &env(None, None));
    assert!(m.starts_with("Machine location history box\n"));
    assert!(m.contains("│ Directory ┃ Host ┃ Everywhere │"));
}

#[test]
fn focus_session_fragment_once() {
    let t = generate_title(&Location::Session, &env(Some("3"), None));
    assert_eq!(t.matches("Session: 3 ").count(), 1);
    assert!(!t.contains("Directory:"));
    assert!(t.starts_with("Session location history 42Session: 3 \n"));
}

#[test]
fn focus_fragments_in_order() {
    let t = generate_title(&Location::Machine, &env(Some("7"), Some("/tmp")));
    assert!(t.starts_with("Machine location history boxSession: 7 Directory: /tmp \n"));
}

#[test]
fn title_parts() {
    let e = env(None, None);
    assert_eq!(extra_info(&Location::Session, &e), "42");
    assert_eq!(extra_info(&Location::Everywhere, &e), "");
    assert_eq!(focus_line("Directory", &Some(String::from("/x"))), "Directory: /x ");
    assert_eq!(focus_line("Directory", &None), "");
    assert_eq!(Location::Everywhere.label(), "Everywhere");
}

#[test]
fn scope_order() {
    assert!(Location::Session.is_narrower_than(&Location::Directory));
    assert!(Location::Directory.is_narrower_than(&Location::Machine));
    assert!(Location::Machine.is_narrower_than(&Location::Everywhere));
    assert!(!Location::Everywhere.is_narrower_than(&Location::Session));
    assert!(Location::Session < Location::Everywhere);
}
