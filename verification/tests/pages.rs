use flussomodoro::ui::pages::{time_chars, Help};
use flussomodoro::ui::AppPage;

#[test]
fn default_page_is_main() {
    let p = AppPage::default();
    assert!(matches!(p, AppPage::Main(_)));
    assert_eq!(AppPage::idx_of(&p), 0);
}

#[test]
fn page_indices_are_stable() {
    assert_eq!(AppPage::idx_of(&AppPage::default()), 0);
    assert_eq!(AppPage::idx_of(&AppPage::EisenhowerMat), 1);
    assert_eq!(AppPage::idx_of(&AppPage::Kanban), 2);
    assert_eq!(AppPage::idx_of(&AppPage::Tasks), 3);
    assert_eq!(AppPage::idx_of(&AppPage::Help(Help::default())), 4);
    assert_eq!(AppPage::idx_of(&AppPage::Settings), 5);
}

#[test]
fn toggle_help_flips_between_help_and_main() {
    let p = AppPage::default();
    let h = p.toggle_help();
    assert!(matches!(h, AppPage::Help(_)));
    let back = h.toggle_help();
    assert!(matches!(back, AppPage::Main(_)));
    // from any non-help page the help page opens
    assert!(matches!(AppPage::Tasks.toggle_help(), AppPage::Help(_)));
}

#[test]
fn toggle_settings_opens_settings_and_leaves_help() {
    assert!(matches!(
        AppPage::default().toggle_settings(),
        AppPage::Settings
    ));
    assert!(matches!(
        AppPage::Help(Help::default()).toggle_settings(),
        AppPage::Main(_)
    ));
}

#[test]
fn page_cycle_moves_through_content_pages() {
    let p = AppPage::default();
    let p1 = p.next_non_meta();
    assert!(matches!(p1, AppPage::EisenhowerMat));
    let p2 = p1.next_non_meta();
    assert!(matches!(p2, AppPage::Kanban));
    let p3 = p2.next_non_meta();
    assert!(matches!(p3, AppPage::Tasks));
    let p4 = p3.next_non_meta();
    assert!(matches!(p4, AppPage::Main(_)));

    assert!(matches!(p.prev_non_meta(), AppPage::Tasks));
    assert!(matches!(p3.prev_non_meta(), AppPage::Kanban));
    // meta pages stay put
    assert!(matches!(AppPage::Settings.next_non_meta(), AppPage::Settings));
    assert!(matches!(
        AppPage::Help(Help::default()).prev_non_meta(),
        AppPage::Help(_)
    ));
}

#[test]
fn help_content_has_eleven_lines() {
    let lines = Help::content();
    assert_eq!(lines.len(), 11);
    assert_eq!(lines[0], "Help");
    assert_eq!(lines[10], "[b] - Toggle break (while not paused)");
}

#[test]
fn help_scroll_clamps_to_content() {
    let mut h = Help::default();
    h.scroll_to(3);
    assert_eq!(h.scroll, 3);
    h.scroll_to(100);
    assert_eq!(h.scroll, 10);
    h.scroll_by(-4);
    assert_eq!(h.scroll, 6);
    h.scroll_by(-7);
    assert_eq!(h.scroll, 6); // a step below zero is ignored
    h.scroll_by(2);
    assert_eq!(h.scroll, 8);
    h.scroll_by(100);
    assert_eq!(h.scroll, 10);
}

#[test]
fn page_scroll_reaches_the_help_page() {
    let mut p = AppPage::Help(Help { scroll: 5 });
    p.scroll_by(2);
    match p {
        AppPage::Help(h) => assert_eq!(h.scroll, 7),
        _ => panic!("page changed variant"),
    }
    let mut m = AppPage::default();
    m.scroll_by(2);
    assert!(matches!(m, AppPage::Main(_)));
}

#[test]
fn time_text_formats_minutes_and_seconds() {
    let as_string = |v: Vec<char>| v.into_iter().collect::<String>();
    assert_eq!(as_string(time_chars(0)), "0:00");
    assert_eq!(as_string(time_chars(59)), "0:59");
    assert_eq!(as_string(time_chars(60)), "1:00");
    assert_eq!(as_string(time_chars(150)), "2:30");
    assert_eq!(as_string(time_chars(1500)), "25:00");
    assert_eq!(as_string(time_chars(65535)), "1092:15");
}
