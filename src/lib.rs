//! Match telemetry logging and replay-menu automation for a fighting-game plugin.
//!
//! The host game calls into this library from its hooks; everything here is
//! independent of the host: it hands over plain values and performs the
//! actions that come back.
pub mod actionable;
pub mod articles;
pub mod db;
pub mod export;
pub mod log_laws;
pub mod logger;
pub mod navigation;
pub mod replays;
pub mod sample;
pub mod scene;
pub mod tracker;

pub use actionable::{actionable_transitions, can_act, ActionableTransition};
pub use articles::{articles_to_clear, MAX_ARTICLE};
pub use db::Config;
pub use export::{export_file_path, fight_name, push_decimal};
pub use logger::{BoundaryAction, ExportError, ExportStep, Logger};
pub use navigation::{
    label_transition, CurrentNavigation, MenuInput, NavNotice, Navigator, KEY_A, KEY_B, KEY_DOWN,
    KEY_RIGHT, KEY_START, KEY_UP, KEY_X, WAIT_MAX,
};
pub use replays::ReplayQueue;
pub use sample::{check_record_line, SampleLine};
pub use scene::enters_shared_content;
pub use tracker::{Boundary, MatchPhase};
