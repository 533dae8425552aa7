use vstd::prelude::*;

use crate::export::{export_file_path, export_path, fight_identifier, fight_name};
use crate::sample::{is_record_line, SampleLine};
use crate::tracker::{boundary_phase, is_pre_match, Boundary, MatchPhase};

verus! {

/// Why an export file could not be written.
#[derive(Clone, Copy, Debug, PartialEq, Eq, Structural)]
pub enum ExportError {
    /// The file could not be created.
    Create,
    /// The log could not be written to it in full.
    Write,
}

/// What a boundary notification asks of the host.
#[derive(Clone, Copy, Debug, PartialEq, Eq, Structural)]
pub enum BoundaryAction {
    /// Nothing to do.
    Nothing,
    /// A new match has started; frames are recorded from now on.
    MatchStarted,
    /// The match is over: write the log to a fresh export target.
    Export,
}

/// What follows an attempt to write the export file.
#[derive(Clone, Copy, Debug, PartialEq, Eq, Structural)]
pub enum ExportStep {
    /// The log was written and the buffer emptied.
    Done,
    /// The first attempt failed: try once more, with a freshly computed target.
    Retry(ExportError),
    /// The second attempt failed too: the buffer is kept for a later export.
    GaveUp(ExportError),
}

/// The state of a logger, as the contracts see it.
pub ghost struct LoggerView {
    pub phase: MatchPhase,
    /// The buffered log lines, oldest first.
    pub lines: Seq<Seq<char>>,
    /// The name latched for participant slot 0 in this match.
    pub player1: Option<Seq<char>>,
    /// The name latched for participant slot 1 in this match.
    pub player2: Option<Seq<char>>,
    /// Whether the export under way has already failed once.
    pub retried: bool,
}

impl LoggerView {
    /// Every buffered line is a log line, and a failed attempt is only
    /// remembered while its export is under way.
    pub open spec fn valid(self) -> bool {
        &&& forall|i: int| 0 <= i < self.lines.len() ==> is_record_line(#[trigger] self.lines[i])
        &&& self.retried ==> self.phase == MatchPhase::Flushing
    }
}

/// A freshly made logger: idle, with nothing buffered and no names.
pub open spec fn initial_view() -> LoggerView {
    LoggerView {
        phase: MatchPhase::Idle,
        lines: Seq::empty(),
        player1: None,
        player2: None,
        retried: false,
    }
}

/// The state after a boundary notification. A match that starts forgets the
/// names of the previous one; the buffer is left alone.
pub open spec fn boundary_step(v: LoggerView, c: Boundary) -> LoggerView {
    let p = boundary_phase(v.phase, c);
    if v.phase == MatchPhase::Idle && p == MatchPhase::Active {
        LoggerView { phase: p, lines: v.lines, player1: None, player2: None, retried: false }
    } else if v.phase == MatchPhase::Active && p == MatchPhase::Flushing {
        LoggerView { phase: p, lines: v.lines, player1: v.player1, player2: v.player2, retried: false }
    } else {
        LoggerView { phase: p, lines: v.lines, player1: v.player1, player2: v.player2, retried: v.retried }
    }
}

/// What a boundary notification asks of the host.
pub open spec fn boundary_action(p: MatchPhase, c: Boundary) -> BoundaryAction {
    if p == MatchPhase::Idle && is_pre_match(c) {
        BoundaryAction::MatchStarted
    } else if p == MatchPhase::Active && c.result_mode {
        BoundaryAction::Export
    } else {
        BoundaryAction::Nothing
    }
}

/// The name latched for `slot` after a frame of participant `id` named `name`:
/// the first one seen wins.
pub open spec fn latch(current: Option<Seq<char>>, slot: i32, id: i32, name: Seq<char>) -> Option<Seq<char>> {
    if id == slot && current is None {
        Some(name)
    } else {
        current
    }
}

/// The state after a frame sample of participant `id`, named `name`, whose
/// log line is `line`. Only an active match records.
pub open spec fn record_step(v: LoggerView, id: i32, name: Seq<char>, line: Seq<char>) -> LoggerView {
    if v.phase != MatchPhase::Active {
        v
    } else {
        LoggerView {
            phase: v.phase,
            lines: v.lines.push(line),
            player1: latch(v.player1, 0, id, name),
            player2: latch(v.player2, 1, id, name),
            retried: v.retried,
        }
    }
}

/// The state after the host tried to write the export file.
pub open spec fn export_step(v: LoggerView, outcome: Result<(), ExportError>) -> LoggerView {
    match outcome {
        Ok(()) => LoggerView {
            phase: MatchPhase::Idle,
            lines: Seq::empty(),
            player1: v.player1,
            player2: v.player2,
            retried: false,
        },
        Err(_) => if v.retried {
            LoggerView { phase: MatchPhase::Idle, lines: v.lines, player1: v.player1, player2: v.player2, retried: false }
        } else {
            LoggerView { phase: MatchPhase::Flushing, lines: v.lines, player1: v.player1, player2: v.player2, retried: true }
        },
    }
}

/// What follows an attempt to write the export file.
pub open spec fn export_result(v: LoggerView, outcome: Result<(), ExportError>) -> ExportStep {
    match outcome {
        Ok(()) => ExportStep::Done,
        Err(e) => if v.retried { ExportStep::GaveUp(e) } else { ExportStep::Retry(e) },
    }
}

pub open spec fn name_or_empty(n: Option<Seq<char>>) -> Seq<char> {
    match n {
        Some(s) => s,
        None => Seq::empty(),
    }
}

/// The identifier an export is named by: the replay's, where one is given,
/// else the two latched names.
pub open spec fn export_identifier(v: LoggerView, replay_id: Option<Seq<char>>) -> Seq<char> {
    match replay_id {
        Some(id) => id,
        None => fight_identifier(name_or_empty(v.player1), name_or_empty(v.player2)),
    }
}

/// The text of a log: each line followed by a newline.
pub open spec fn log_text(lines: Seq<Seq<char>>) -> Seq<char>
    decreases lines.len(),
{
    if lines.len() == 0 {
        Seq::empty()
    } else {
        log_text(lines.drop_last()) + lines.last() + seq!['\n']
    }
}

pub open spec fn view_of_name(n: Option<String>) -> Option<Seq<char>> {
    match n {
        Some(s) => Some(s@),
        None => None,
    }
}

/// Records the frames of one match at a time and hands the finished log to
/// the host for export.
pub struct Logger {
    phase: MatchPhase,
    lines: Vec<String>,
    player1: Option<String>,
    player2: Option<String>,
    retried: bool,
}

impl View for Logger {
    type V = LoggerView;

    closed spec fn view(&self) -> LoggerView {
        LoggerView {
            phase: self.phase,
            lines: self.lines@.map_values(|l: String| l@),
            player1: view_of_name(self.player1),
            player2: view_of_name(self.player2),
            retried: self.retried,
        }
    }
}

fn copy_name(n: &Option<String>) -> (r: Option<String>)
    ensures
        view_of_name(r) == view_of_name(*n),
{
    match n {
        Some(s) => Some(s.clone()),
        None => None,
    }
}

impl Logger {
    pub fn new() -> (r: Logger)
        ensures
            r@ == initial_view(),
            r@.valid(),
    {
        let r = Logger { phase: MatchPhase::Idle, lines: Vec::new(), player1: None, player2: None, retried: false };
        assert(r@.lines =~= Seq::<Seq<char>>::empty());
        r
    }

    pub fn phase(&self) -> (r: MatchPhase)
        ensures
            r == self@.phase,
    {
        self.phase
    }

    /// The number of buffered lines.
    pub fn buffered(&self) -> (r: usize)
        ensures
            r == self@.lines.len(),
    {
        self.lines.len()
    }

    /// The buffered line at index `i`, oldest first.
    pub fn line(&self, i: usize) -> (r: &str)
        requires
            i < self@.lines.len(),
        ensures
            r@ == self@.lines[i as int],
    {
        self.lines[i].as_str()
    }

    /// The name latched for participant slot 0 or 1, if any.
    pub fn player_name(&self, slot: i32) -> (r: Option<String>)
        ensures
            view_of_name(r) == if slot == 0 {
                self@.player1
            } else if slot == 1 {
                self@.player2
            } else {
                None
            },
    {
        if slot == 0 {
            copy_name(&self.player1)
        } else if slot == 1 {
            copy_name(&self.player2)
        } else {
            None
        }
    }

    /// Advances the match phase on a boundary notification from the host.
    pub fn notify_boundary(&mut self, ready_go: bool, result_mode: bool) -> (r: BoundaryAction)
        ensures
            final(self)@ == boundary_step(old(self)@, Boundary { ready_go, result_mode }),
            r == boundary_action(old(self)@.phase, Boundary { ready_go, result_mode }),
            old(self)@.valid() ==> final(self)@.valid(),
    {
        match self.phase {
            MatchPhase::Idle => {
                if !ready_go && !result_mode {
                    self.phase = MatchPhase::Active;
                    self.player1 = None;
                    self.player2 = None;
                    self.retried = false;
                    BoundaryAction::MatchStarted
                } else {
                    BoundaryAction::Nothing
                }
            },
            MatchPhase::Active => {
                if result_mode {
                    self.phase = MatchPhase::Flushing;
                    self.retried = false;
                    BoundaryAction::Export
                } else {
                    BoundaryAction::Nothing
                }
            },
            MatchPhase::Flushing => BoundaryAction::Nothing,
        }
    }

    /// Records one frame sample of participant `id`, named `name`. Outside an
    /// active match nothing happens; the result says whether it was recorded.
    pub fn record_frame(&mut self, id: i32, name: &str, sample: SampleLine) -> (r: bool)
        ensures
            final(self)@ == record_step(old(self)@, id, name@, sample@),
            r == (old(self)@.phase == MatchPhase::Active),
            old(self)@.valid() ==> final(self)@.valid(),
    {
        if self.phase != MatchPhase::Active {
            return false;
        }
        if id == 0 && self.player1.is_none() {
            self.player1 = Some(String::from_str(name));
        }
        if id == 1 && self.player2.is_none() {
            self.player2 = Some(String::from_str(name));
        }
        let ghost old_lines = self.lines@;
        let text = sample.into_string();
        self.lines.push(text);
        proof {
            assert(self.lines@ == old_lines.push(text));
            assert(self@.lines =~= old(self)@.lines.push(sample@));
        }
        true
    }

    /// The path that the log of the match is exported to, at time `millis`:
    /// under `root`, named by `replay_id` where one is given, else by the
    /// two latched names.
    pub fn export_target(&self, root: &str, replay_id: Option<&str>, millis: u64) -> (r: String)
        ensures
            r@ == export_path(
                root@,
                export_identifier(self@, match replay_id { Some(id) => Some(id@), None => None }),
                millis as nat,
            ),
    {
        match replay_id {
            Some(id) => export_file_path(root, id, millis),
            None => {
                let a: &str = match &self.player1 { Some(s) => s.as_str(), None => "" };
                let b: &str = match &self.player2 { Some(s) => s.as_str(), None => "" };
                proof { reveal_strlit(""); }
                assert(a@ == name_or_empty(self@.player1));
                assert(b@ == name_or_empty(self@.player2));
                let id = fight_name(a, b);
                export_file_path(root, id.as_str(), millis)
            },
        }
    }

    /// The whole buffered log, one line per recorded frame, each ended by a
    /// newline.
    pub fn buffer_text(&self) -> (r: String)
        ensures
            r@ == log_text(self@.lines),
    {
        let mut r = String::new();
        let mut i: usize = 0;
        while i < self.lines.len()
            invariant
                0 <= i <= self.lines.len(),
                r@ == log_text(self@.lines.take(i as int)),
            decreases self.lines.len() - i,
        {
            r.append(self.lines[i].as_str());
            let nl = "\n";
            proof { reveal_strlit("\n"); }
            assert(nl@ =~= seq!['\n']);
            r.append(nl);
            proof {
                let t = self@.lines.take(i + 1);
                assert(log_text(t) == log_text(t.drop_last()) + t.last() + seq!['\n']);
                assert(t.drop_last() =~= self@.lines.take(i as int));
                assert(t.last() == self.lines@[i as int]@);
                assert(r@ =~= log_text(t));
            }
            i = i + 1;
        }
        assert(self@.lines.take(i as int) =~= self@.lines);
        r
    }

    /// Takes the host's report on the export it was asked for. Success empties
    /// the buffer; a first failure asks for one more try with a fresh target;
    /// a second gives up and keeps the buffer.
    pub fn finish_export(&mut self, outcome: Result<(), ExportError>) -> (r: ExportStep)
        requires
            old(self)@.phase == MatchPhase::Flushing,
        ensures
            final(self)@ == export_step(old(self)@, outcome),
            r == export_result(old(self)@, outcome),
            old(self)@.valid() ==> final(self)@.valid(),
    {
        match outcome {
            Ok(()) => {
                self.lines.clear();
                self.phase = MatchPhase::Idle;
                self.retried = false;
                assert(self@.lines =~= Seq::<Seq<char>>::empty());
                ExportStep::Done
            },
            Err(e) => {
                if self.retried {
                    self.phase = MatchPhase::Idle;
                    self.retried = false;
                    ExportStep::GaveUp(e)
                } else {
                    self.retried = true;
                    ExportStep::Retry(e)
                }
            },
        }
    }
}

} // verus!
