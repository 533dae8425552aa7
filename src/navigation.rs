//! The automaton that walks the menus to the shared-content search and plays
//! one stored replay after another.
use rand::Rng;
use vstd::prelude::*;

verus! {

/// Where the walk through the menus stands.
#[derive(Clone, Copy, Debug, PartialEq, Eq, Structural)]
pub enum CurrentNavigation {
    /// Waiting for the main menu to load.
    MainWaitingForLoad,
    /// On "Melee": press down.
    MainOnMelee,
    /// On "Spirits": press right.
    MainOnSpirits,
    /// On "Online": press A.
    MainOnOnline,
    /// A connecting pop-up is showing: press nothing.
    MainWaitingOnline,
    /// In the online menu: press down.
    MainInOnline,
    /// On "Shared Content": press A.
    MainOnSharedContent,
    /// Waiting for shared content to load: press X.
    ScWaitingForLoad,
    /// At the top of the search submenu: press up once.
    ScSearchSubmenuTop,
    /// On "Enter ID" at the bottom of the search submenu: press A.
    ScSearchSubmenuBottom,
    /// The keyboard is showing: press A and start.
    ScKeyboard,
    /// Waiting for the search results.
    ScSearchResults,
    /// The search found nothing (unused).
    _ScBadId,
    /// Hovering over the replay found: press A.
    ScHoverReplay,
    /// The replay is loading: hold X.
    ScWaitingForGame,
    /// The replay has begun: press X and down to hide the overlay.
    ScGO,
    /// The replay is playing: press B until back in the search submenu.
    ScPlayback,
    /// Done with a replay: press B.
    DoneHoverPlay,
    /// A video, not a replay, was found: press B to leave it.
    ScVideo,
    /// Every replay has been played.
    Complete,
}

/// What the host should be told after a menu label was seen.
#[derive(Clone, Copy, Debug, PartialEq, Eq, Structural)]
pub enum NavNotice {
    Nothing,
    /// The replay id entered last was not a playable replay.
    BadId,
    /// The replay entered last has been played.
    ReplayDone,
}

/// The state after the menu shows `label`, and what the host is told.
/// `ready_go` is whether the match countdown is over.
pub open spec fn label_step(nav: CurrentNavigation, label: Seq<char>, ready_go: bool) -> (
    CurrentNavigation,
    NavNotice,
) {
    if label == "mnu_share_detail_movie_title"@ {
        (CurrentNavigation::ScVideo, NavNotice::BadId)
    } else if label == "mnu_top_help_melee"@ && nav == CurrentNavigation::MainWaitingForLoad {
        (CurrentNavigation::MainOnMelee, NavNotice::Nothing)
    } else if label == "mnu_top_help_spirits"@ && nav == CurrentNavigation::MainOnMelee {
        (CurrentNavigation::MainOnSpirits, NavNotice::Nothing)
    } else if label == "mnu_top_help_online"@ && nav == CurrentNavigation::MainOnSpirits {
        (CurrentNavigation::MainOnOnline, NavNotice::Nothing)
    } else if label == "pop_online_connecting"@ && nav == CurrentNavigation::MainOnOnline {
        (CurrentNavigation::MainWaitingOnline, NavNotice::Nothing)
    } else if label == "mnu_onl_top_help_onl_melee"@ && (nav == CurrentNavigation::MainOnOnline || nav
        == CurrentNavigation::MainWaitingOnline) {
        (CurrentNavigation::MainInOnline, NavNotice::Nothing)
    } else if label == "mnu_onl_top_help_contribution"@ && nav == CurrentNavigation::MainInOnline {
        (CurrentNavigation::MainOnSharedContent, NavNotice::Nothing)
    } else if label == "mnu_share_cat_movie"@ && nav == CurrentNavigation::ScWaitingForLoad {
        (CurrentNavigation::ScSearchSubmenuTop, NavNotice::Nothing)
    } else if label == "mnu_share_search_result_title"@ && nav == CurrentNavigation::ScSearchResults {
        (CurrentNavigation::ScHoverReplay, NavNotice::Nothing)
    } else if label == "pop_share_no_post"@ {
        (CurrentNavigation::ScPlayback, NavNotice::BadId)
    } else if label == "pop_online_communicating_mini"@ && nav == CurrentNavigation::ScHoverReplay {
        (CurrentNavigation::ScWaitingForGame, NavNotice::Nothing)
    } else if label == "mel_pause_filter_00"@ && nav == CurrentNavigation::ScWaitingForGame && ready_go {
        (CurrentNavigation::ScGO, NavNotice::Nothing)
    } else if label == "mnu_share_cat_movie"@ && (nav == CurrentNavigation::DoneHoverPlay || nav == CurrentNavigation::ScPlayback || nav
        == CurrentNavigation::ScVideo) {
        (CurrentNavigation::ScSearchSubmenuBottom, NavNotice::ReplayDone)
    } else {
        (nav, NavNotice::Nothing)
    }
}

/// Whether two texts are equal.
pub fn str_eq(a: &str, b: &str) -> (r: bool)
    ensures
        r == (a@ == b@),
{
    let n = a.unicode_len();
    if n != b.unicode_len() {
        return false;
    }
    let mut i: usize = 0;
    while i < n
        invariant
            n == a@.len(),
            n == b@.len(),
            0 <= i <= n,
            forall|j: int| 0 <= j < i ==> a@[j] == b@[j],
        decreases n - i,
    {
        if a.get_char(i) != b.get_char(i) {
            return false;
        }
        i = i + 1;
    }
    assert(a@ =~= b@);
    true
}

/// The state after the menu shows `label`, and what the host is told.
pub fn label_transition(nav: CurrentNavigation, label: &str, ready_go: bool) -> (r: (
    CurrentNavigation,
    NavNotice,
))
    ensures
        r == label_step(nav, label@, ready_go),
{
    if str_eq(label, "mnu_share_detail_movie_title") {
        (CurrentNavigation::ScVideo, NavNotice::BadId)
    } else if str_eq(label, "mnu_top_help_melee") && nav == CurrentNavigation::MainWaitingForLoad {
        (CurrentNavigation::MainOnMelee, NavNotice::Nothing)
    } else if str_eq(label, "mnu_top_help_spirits") && nav == CurrentNavigation::MainOnMelee {
        (CurrentNavigation::MainOnSpirits, NavNotice::Nothing)
    } else if str_eq(label, "mnu_top_help_online") && nav == CurrentNavigation::MainOnSpirits {
        (CurrentNavigation::MainOnOnline, NavNotice::Nothing)
    } else if str_eq(label, "pop_online_connecting") && nav == CurrentNavigation::MainOnOnline {
        (CurrentNavigation::MainWaitingOnline, NavNotice::Nothing)
    } else if str_eq(label, "mnu_onl_top_help_onl_melee") && (nav == CurrentNavigation::MainOnOnline || nav
        == CurrentNavigation::MainWaitingOnline) {
        (CurrentNavigation::MainInOnline, NavNotice::Nothing)
    } else if str_eq(label, "mnu_onl_top_help_contribution") && nav == CurrentNavigation::MainInOnline {
        (CurrentNavigation::MainOnSharedContent, NavNotice::Nothing)
    } else if str_eq(label, "mnu_share_cat_movie") && nav == CurrentNavigation::ScWaitingForLoad {
        (CurrentNavigation::ScSearchSubmenuTop, NavNotice::Nothing)
    } else if str_eq(label, "mnu_share_search_result_title") && nav == CurrentNavigation::ScSearchResults {
        (CurrentNavigation::ScHoverReplay, NavNotice::Nothing)
    } else if str_eq(label, "pop_share_no_post") {
        (CurrentNavigation::ScPlayback, NavNotice::BadId)
    } else if str_eq(label, "pop_online_communicating_mini") && nav == CurrentNavigation::ScHoverReplay {
        (CurrentNavigation::ScWaitingForGame, NavNotice::Nothing)
    } else if str_eq(label, "mel_pause_filter_00") && nav == CurrentNavigation::ScWaitingForGame && ready_go {
        (CurrentNavigation::ScGO, NavNotice::Nothing)
    } else if str_eq(label, "mnu_share_cat_movie") && (nav == CurrentNavigation::DoneHoverPlay || nav == CurrentNavigation::ScPlayback
        || nav == CurrentNavigation::ScVideo) {
        (CurrentNavigation::ScSearchSubmenuBottom, NavNotice::ReplayDone)
    } else {
        (nav, NavNotice::Nothing)
    }
}

/// Controller button bits.
pub const KEY_A: u64 = 1;
pub const KEY_B: u64 = 2;
pub const KEY_X: u64 = 4;
pub const KEY_START: u64 = 1024;
pub const KEY_UP: u64 = 8192;
pub const KEY_RIGHT: u64 = 16384;
pub const KEY_DOWN: u64 = 32768;

/// How many input polls to let pass before a delayed press.
pub const WAIT_MAX: u64 = 40;

/// The button tapped in a state, on the polls where the tap falls.
pub open spec fn pressed_key(nav: CurrentNavigation) -> u64 {
    match nav {
        CurrentNavigation::ScVideo => KEY_B,
        CurrentNavigation::ScPlayback | CurrentNavigation::DoneHoverPlay => KEY_B,
        CurrentNavigation::MainOnMelee | CurrentNavigation::MainInOnline => KEY_DOWN,
        CurrentNavigation::MainOnSpirits => KEY_RIGHT,
        CurrentNavigation::ScWaitingForLoad => KEY_X,
        CurrentNavigation::MainOnOnline | CurrentNavigation::MainOnSharedContent
        | CurrentNavigation::ScSearchSubmenuBottom | CurrentNavigation::ScHoverReplay
        | CurrentNavigation::ScKeyboard => KEY_A,
        _ => 0,
    }
}

/// The button tapped in a state on the other polls.
pub open spec fn alternate_key(nav: CurrentNavigation) -> u64 {
    if nav == CurrentNavigation::ScKeyboard {
        KEY_START
    } else {
        0
    }
}

/// Whether the host should be told the user is active, so that the screen
/// does not dim.
pub open spec fn reports_active(nav: CurrentNavigation) -> bool {
    match nav {
        CurrentNavigation::ScPlayback | CurrentNavigation::DoneHoverPlay
        | CurrentNavigation::MainOnOnline | CurrentNavigation::MainOnSharedContent
        | CurrentNavigation::ScSearchSubmenuBottom | CurrentNavigation::ScHoverReplay => true,
        _ => false,
    }
}

/// The bitwise or of two button sets, with the empty set folded away.
pub open spec fn or_bits(a: u64, b: u64) -> u64 {
    if a == 0 {
        b
    } else if b == 0 {
        a
    } else {
        a | b
    }
}

proof fn lemma_or_bits(a: u64, b: u64)
    ensures
        a | b == or_bits(a, b),
{
    assert(a | 0u64 == a) by (bit_vector);
    assert(0u64 | b == b) by (bit_vector);
}

/// One input poll: the buttons to add to the controller state, whether to
/// report activity, the next state and the next wait count. `roll` is the
/// random draw in `0..3` that spaces taps apart: the tap falls where it is 1.
pub open spec fn menu_step(nav: CurrentNavigation, count: u64, roll: u32) -> (
    u64,
    bool,
    CurrentNavigation,
    u64,
) {
    let (hold, nav1, count1) = if nav == CurrentNavigation::ScWaitingForGame {
        (KEY_X, nav, count)
    } else if nav == CurrentNavigation::ScGO {
        if count < WAIT_MAX {
            (0u64, nav, (count + 1) as u64)
        } else {
            (KEY_X | KEY_DOWN, CurrentNavigation::ScPlayback, 0u64)
        }
    } else {
        (0u64, nav, count)
    };
    let tap = if roll == 1 { pressed_key(nav) } else { alternate_key(nav) };
    let buttons = or_bits(tap, hold);
    if nav1 == CurrentNavigation::ScSearchSubmenuTop {
        if count1 < WAIT_MAX {
            (buttons, reports_active(nav), nav1, (count1 + 1) as u64)
        } else {
            (or_bits(buttons, KEY_UP), reports_active(nav), CurrentNavigation::ScSearchSubmenuBottom, 0u64)
        }
    } else {
        (buttons, reports_active(nav), nav1, count1)
    }
}

/// What one input poll asks of the host.
#[derive(Clone, Copy, Debug, PartialEq, Eq, Structural)]
pub struct MenuInput {
    /// Bits to set in the controller state.
    pub buttons: u64,
    /// Whether to report that the user is active.
    pub report_active: bool,
}

/// Relies on rand's `Rng::gen_range` over the thread-local generator, which
/// returns a value of the half-open range it is given.
#[verifier::external_body]
fn draw_roll() -> (r: u32)
    ensures
        r < 3,
{
    rand::thread_rng().gen_range(0..3)
}

/// The menu walk: where it stands, and how many polls a delayed press has
/// waited.
pub struct Navigator {
    pub nav: CurrentNavigation,
    pub wait_count: u64,
}

impl Navigator {
    pub fn new() -> (r: Navigator)
        ensures
            r.nav == CurrentNavigation::MainWaitingForLoad,
            r.wait_count == 0,
    {
        Navigator { nav: CurrentNavigation::MainWaitingForLoad, wait_count: 0 }
    }

    /// Whether a delayed press must wait longer. Counts the poll while it
    /// must; once `WAIT_MAX` polls have passed, starts the count over.
    pub fn should_wait(&mut self) -> (r: bool)
        ensures
            r == (old(self).wait_count < WAIT_MAX),
            final(self).wait_count == if r { old(self).wait_count + 1 } else { 0 },
            final(self).nav == old(self).nav,
    {
        if self.wait_count < WAIT_MAX {
            self.wait_count = self.wait_count + 1;
            return true;
        }
        self.wait_count = 0;
        false
    }

    /// Takes the menu label the host is about to show.
    pub fn on_label(&mut self, label: &str, ready_go: bool) -> (r: NavNotice)
        ensures
            (final(self).nav, r) == label_step(old(self).nav, label@, ready_go),
            final(self).wait_count == old(self).wait_count,
    {
        let (nav, notice) = label_transition(self.nav, label, ready_go);
        self.nav = nav;
        notice
    }

    /// The scene changed to shared content: wait for it to load.
    pub fn enter_shared_content(&mut self)
        ensures
            final(self).nav == CurrentNavigation::ScWaitingForLoad,
            final(self).wait_count == old(self).wait_count,
    {
        self.nav = CurrentNavigation::ScWaitingForLoad;
    }

    /// A replay id has been typed into the keyboard: wait for the results.
    pub fn keyboard_done(&mut self)
        ensures
            final(self).nav == CurrentNavigation::ScSearchResults,
            final(self).wait_count == old(self).wait_count,
    {
        self.nav = CurrentNavigation::ScSearchResults;
    }

    /// One input poll, with the random draw `roll` given.
    pub fn menu_input(&mut self, roll: u32) -> (r: MenuInput)
        ensures
            (r.buttons, r.report_active, final(self).nav, final(self).wait_count) == menu_step(
                old(self).nav,
                old(self).wait_count,
                roll,
            ),
    {
        let nav = self.nav;
        let mut tap: u64 = 0;
        let mut alternate: u64 = 0;
        let mut hold: u64 = 0;
        let mut report_active = false;
        match nav {
            CurrentNavigation::ScVideo => {
                tap = KEY_B;
            },
            CurrentNavigation::ScPlayback | CurrentNavigation::DoneHoverPlay => {
                report_active = true;
                tap = KEY_B;
            },
            CurrentNavigation::MainOnMelee | CurrentNavigation::MainInOnline => {
                tap = KEY_DOWN;
            },
            CurrentNavigation::MainOnSpirits => {
                tap = KEY_RIGHT;
            },
            CurrentNavigation::ScWaitingForLoad => {
                tap = KEY_X;
            },
            CurrentNavigation::MainOnOnline | CurrentNavigation::MainOnSharedContent
            | CurrentNavigation::ScSearchSubmenuBottom | CurrentNavigation::ScHoverReplay => {
                tap = KEY_A;
                report_active = true;
            },
            CurrentNavigation::ScKeyboard => {
                tap = KEY_A;
                alternate = KEY_START;
            },
            CurrentNavigation::ScWaitingForGame => {
                hold = KEY_X;
            },
            CurrentNavigation::ScGO => {
                if !self.should_wait() {
                    hold = KEY_X | KEY_DOWN;
                    self.nav = CurrentNavigation::ScPlayback;
                }
            },
            _ => {},
        }
        let mut buttons: u64 = if roll == 1 { tap } else { alternate };
        proof { lemma_or_bits(buttons, hold); }
        buttons = buttons | hold;
        if self.nav == CurrentNavigation::ScSearchSubmenuTop {
            if !self.should_wait() {
                proof { lemma_or_bits(buttons, KEY_UP); }
                buttons = buttons | KEY_UP;
                self.nav = CurrentNavigation::ScSearchSubmenuBottom;
            }
        }
        MenuInput { buttons, report_active }
    }

    /// One input poll, spacing taps apart at random: the result is that of
    /// `menu_input` for some draw in `0..3`.
    pub fn poll_input(&mut self) -> (r: MenuInput)
        ensures
            exists|roll: u32|
                roll < 3 && (r.buttons, r.report_active, final(self).nav, final(self).wait_count)
                    == menu_step(old(self).nav, old(self).wait_count, roll),
    {
        let roll = draw_roll();
        self.menu_input(roll)
    }
}

} // verus!
