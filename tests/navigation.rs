use ult_logger::{
    articles_to_clear, enters_shared_content, label_transition, Config, CurrentNavigation,
    NavNotice, Navigator, ReplayQueue, KEY_A, KEY_B, KEY_DOWN, KEY_RIGHT, KEY_START, KEY_UP,
    KEY_X, MAX_ARTICLE, WAIT_MAX,
};

#[test]
fn walks_the_main_menu() {
    let mut n = Navigator::new();
    assert_eq!(n.nav, CurrentNavigation::MainWaitingForLoad);
    let steps = [
        ("mnu_top_help_melee", CurrentNavigation::MainOnMelee),
        ("mnu_top_help_spirits", CurrentNavigation::MainOnSpirits),
        ("mnu_top_help_online", CurrentNavigation::MainOnOnline),
        ("pop_online_connecting", CurrentNavigation::MainWaitingOnline),
        ("mnu_onl_top_help_onl_melee", CurrentNavigation::MainInOnline),
        ("mnu_onl_top_help_contribution", CurrentNavigation::MainOnSharedContent),
    ];
    for (label, next) in steps {
        assert_eq!(n.on_label(label, false), NavNotice::Nothing);
        assert_eq!(n.nav, next);
    }
    // A label out of order changes nothing.
    assert_eq!(n.on_label("mnu_top_help_melee", false), NavNotice::Nothing);
    assert_eq!(n.nav, CurrentNavigation::MainOnSharedContent);
}

#[test]
fn plays_a_replay() {
    let mut n = Navigator::new();
    n.enter_shared_content();
    assert_eq!(n.nav, CurrentNavigation::ScWaitingForLoad);
    n.on_label("mnu_share_cat_movie", false);
    assert_eq!(n.nav, CurrentNavigation::ScSearchSubmenuTop);
    n.nav = CurrentNavigation::ScSearchSubmenuBottom;
    n.keyboard_done();
    assert_eq!(n.nav, CurrentNavigation::ScSearchResults);
    n.on_label("mnu_share_search_result_title", false);
    assert_eq!(n.nav, CurrentNavigation::ScHoverReplay);
    n.on_label("pop_online_communicating_mini", false);
    assert_eq!(n.nav, CurrentNavigation::ScWaitingForGame);
    n.on_label("mel_pause_filter_00", false);
    assert_eq!(n.nav, CurrentNavigation::ScWaitingForGame);
    n.on_label("mel_pause_filter_00", true);
    assert_eq!(n.nav, CurrentNavigation::ScGO);
    n.nav = CurrentNavigation::ScPlayback;
    assert_eq!(n.on_label("mnu_share_cat_movie", false), NavNotice::ReplayDone);
    assert_eq!(n.nav, CurrentNavigation::ScSearchSubmenuBottom);
}

#[test]
fn bad_ids_and_videos() {
    assert_eq!(
        label_transition(CurrentNavigation::MainOnMelee, "mnu_share_detail_movie_title", false),
        (CurrentNavigation::ScVideo, NavNotice::BadId)
    );
    assert_eq!(
        label_transition(CurrentNavigation::ScSearchResults, "pop_share_no_post", true),
        (CurrentNavigation::ScPlayback, NavNotice::BadId)
    );
    assert_eq!(
        label_transition(CurrentNavigation::ScVideo, "mnu_share_cat_movie", false),
        (CurrentNavigation::ScSearchSubmenuBottom, NavNotice::ReplayDone)
    );
    assert_eq!(
        label_transition(CurrentNavigation::ScHoverReplay, "mnu_share_cat_movie", false),
        (CurrentNavigation::ScHoverReplay, NavNotice::Nothing)
    );
    assert_eq!(
        label_transition(CurrentNavigation::MainOnOnline, "mnu_onl_top_help_onl_melee", false),
        (CurrentNavigation::MainInOnline, NavNotice::Nothing)
    );
}

#[test]
fn should_wait_counts_to_the_limit() {
    let mut n = Navigator::new();
    for i in 0..WAIT_MAX {
        assert!(n.should_wait());
        assert_eq!(n.wait_count, i + 1);
    }
    assert!(!n.should_wait());
    assert_eq!(n.wait_count, 0);
    assert!(n.should_wait());
}

fn at(nav: CurrentNavigation) -> Navigator {
    let mut n = Navigator::new();
    n.nav = nav;
    n
}

#[test]
fn taps_by_state() {
    assert_eq!(at(CurrentNavigation::MainOnMelee).menu_input(1).buttons, KEY_DOWN);
    assert_eq!(at(CurrentNavigation::MainOnMelee).menu_input(0).buttons, 0);
    assert_eq!(at(CurrentNavigation::MainOnMelee).menu_input(2).buttons, 0);
    assert_eq!(at(CurrentNavigation::MainOnSpirits).menu_input(1).buttons, KEY_RIGHT);
    assert_eq!(at(CurrentNavigation::ScWaitingForLoad).menu_input(1).buttons, KEY_X);
    assert_eq!(at(CurrentNavigation::ScVideo).menu_input(1).buttons, KEY_B);
    assert_eq!(at(CurrentNavigation::ScKeyboard).menu_input(1).buttons, KEY_A);
    assert_eq!(at(CurrentNavigation::ScKeyboard).menu_input(0).buttons, KEY_START);
    assert_eq!(at(CurrentNavigation::ScWaitingForGame).menu_input(0).buttons, KEY_X);
    assert_eq!(at(CurrentNavigation::MainWaitingOnline).menu_input(1).buttons, 0);
    let r = at(CurrentNavigation::ScHoverReplay).menu_input(1);
    assert_eq!(r.buttons, KEY_A);
    assert!(r.report_active);
    let r = at(CurrentNavigation::ScPlayback).menu_input(0);
    assert_eq!(r.buttons, 0);
    assert!(r.report_active);
    assert!(!at(CurrentNavigation::MainOnMelee).menu_input(1).report_active);
    assert!(!at(CurrentNavigation::ScVideo).menu_input(1).report_active);
}

#[test]
fn overlay_is_hidden_after_a_wait() {
    let mut n = at(CurrentNavigation::ScGO);
    for _ in 0..WAIT_MAX {
        assert_eq!(n.menu_input(1).buttons, 0);
        assert_eq!(n.nav, CurrentNavigation::ScGO);
    }
    let r = n.menu_input(1);
    assert_eq!(r.buttons, KEY_X | KEY_DOWN);
    assert_eq!(r.buttons, 32772);
    assert_eq!(n.nav, CurrentNavigation::ScPlayback);
    assert_eq!(n.wait_count, 0);
}

#[test]
fn up_is_pressed_once_after_a_wait() {
    let mut n = at(CurrentNavigation::ScSearchSubmenuTop);
    for _ in 0..WAIT_MAX {
        assert_eq!(n.menu_input(1).buttons, 0);
    }
    assert_eq!(n.menu_input(1).buttons, KEY_UP);
    assert_eq!(n.nav, CurrentNavigation::ScSearchSubmenuBottom);
    assert_eq!(n.menu_input(1).buttons, KEY_A);
}

#[test]
fn random_polls_tap_or_not() {
    for _ in 0..50 {
        let mut n = at(CurrentNavigation::MainOnSpirits);
        let r = n.poll_input();
        assert!(r.buttons == 0 || r.buttons == KEY_RIGHT);
        assert_eq!(n.nav, CurrentNavigation::MainOnSpirits);
    }
}

#[test]
fn replay_ids_in_turn() {
    let mut q = ReplayQueue::new(vec!["AAAA".to_string(), "BBBB".to_string()]);
    assert_eq!(q.last_entered(), None);
    assert_eq!(q.export_id(), "XXXXXXXX");
    assert_eq!(q.current_id(), Some("AAAA".to_string()));
    assert_eq!(q.take_next(), Some(("AAAA".to_string(), false)));
    assert_eq!(q.id_index(), 1);
    assert_eq!(q.last_entered(), Some("AAAA".to_string()));
    assert_eq!(q.export_id(), "AAAA");
    assert_eq!(q.take_next(), Some(("BBBB".to_string(), true)));
    assert_eq!(q.id_index(), 0);
    let mut q = ReplayQueue::new(vec!["A".to_string(), "B".to_string(), "C".to_string()]);
    assert!(!q.increment_id_index());
    assert!(!q.increment_id_index());
    assert!(q.increment_id_index());
    assert_eq!(q.id_index(), 0);
    let mut empty = ReplayQueue::new(Vec::new());
    assert_eq!(empty.current_id(), None);
    assert_eq!(empty.take_next(), None);
    assert!(empty.increment_id_index());
}

fn scene_name(name: &str) -> [u8; 64] {
    let mut b = [0u8; 64];
    b[..name.len()].copy_from_slice(name.as_bytes());
    b
}

#[test]
fn shared_content_scene_change() {
    let share = scene_name("OnlineShareSequenceScene");
    let menu = scene_name("MenuSequenceScene");
    assert!(enters_shared_content(&share, &menu));
    assert!(!enters_shared_content(&menu, &share));
    assert!(!enters_shared_content(&share, &share));
    assert!(!enters_shared_content(b"OnlineShare", &menu));
}

#[test]
fn articles_outside_the_allow_list() {
    let allow = vec![(5, 3), (5, 7), (6, 1)];
    let r = articles_to_clear(5, &allow);
    assert_eq!(r.len(), 36);
    assert!(!r.contains(&3) && !r.contains(&7));
    assert!(r.contains(&1));
    assert_eq!(r[0..4], [0, 1, 2, 4]);
    let all = articles_to_clear(9, &allow);
    assert_eq!(all, (0..=MAX_ARTICLE).collect::<Vec<i32>>());
    assert_eq!(MAX_ARTICLE, 0x25);
}

#[test]
fn default_config() {
    let c = Config::new();
    assert_eq!(c.priv_key, "priv_key.json");
    assert_eq!(c.sheet_id, "1VJI0G67jWe4KFeDyqrUpId1pX1-iK0A16maJ7I_pqP4");
}
