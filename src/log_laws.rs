//! What holds of the logger over many calls.
use vstd::prelude::*;

use crate::export::fight_identifier;
use crate::logger::{
    boundary_step, export_identifier, export_step, log_text, record_step, ExportError, LoggerView,
};
use crate::tracker::{boundary_phase, settled_phase, Boundary, MatchPhase};

verus! {

/// The state after a run of frame samples, each given as participant id,
/// name and log line.
pub open spec fn record_all(v: LoggerView, samples: Seq<(i32, Seq<char>, Seq<char>)>) -> LoggerView
    decreases samples.len(),
{
    if samples.len() == 0 {
        v
    } else {
        let s = samples.last();
        record_step(record_all(v, samples.drop_last()), s.0, s.1, s.2)
    }
}

/// The name of the first sample of participant `id` in a run, if any.
pub open spec fn first_name(samples: Seq<(i32, Seq<char>, Seq<char>)>, id: i32) -> Option<Seq<char>>
    decreases samples.len(),
{
    if samples.len() == 0 {
        None
    } else {
        match first_name(samples.drop_last(), id) {
            Some(n) => Some(n),
            None => if samples.last().0 == id { Some(samples.last().1) } else { None },
        }
    }
}

/// The log lines of a run of samples, in order.
pub open spec fn lines_of(samples: Seq<(i32, Seq<char>, Seq<char>)>) -> Seq<Seq<char>> {
    samples.map_values(|s: (i32, Seq<char>, Seq<char>)| s.2)
}

/// One call on a logger.
pub ghost enum LogEvent {
    Boundary(Boundary),
    Frame(i32, Seq<char>, Seq<char>),
    Export(Result<(), ExportError>),
}

/// The state after one call; an export report outside an export changes
/// nothing.
pub open spec fn apply_event(v: LoggerView, e: LogEvent) -> LoggerView {
    match e {
        LogEvent::Boundary(c) => boundary_step(v, c),
        LogEvent::Frame(id, name, line) => record_step(v, id, name, line),
        LogEvent::Export(o) => if v.phase == MatchPhase::Flushing { export_step(v, o) } else { v },
    }
}

/// The state after a run of calls.
pub open spec fn run_events(v: LoggerView, es: Seq<LogEvent>) -> LoggerView
    decreases es.len(),
{
    if es.len() == 0 {
        v
    } else {
        apply_event(run_events(v, es.drop_last()), es.last())
    }
}

/// Outside an active match, recording a frame leaves the logger as it was:
/// the buffer keeps its length.
pub proof fn lemma_record_outside_match(v: LoggerView, samples: Seq<(i32, Seq<char>, Seq<char>)>)
    requires
        v.phase != MatchPhase::Active,
    ensures
        record_all(v, samples) == v,
        record_all(v, samples).lines.len() == v.lines.len(),
    decreases samples.len(),
{
    if samples.len() > 0 {
        lemma_record_outside_match(v, samples.drop_last());
    }
}

/// The text of a log written in two stretches is the text of the first
/// followed by that of the second.
pub proof fn lemma_log_text_concat(a: Seq<Seq<char>>, b: Seq<Seq<char>>)
    ensures
        log_text(a + b) == log_text(a) + log_text(b),
    decreases b.len(),
{
    if b.len() == 0 {
        assert(a + b =~= a);
        assert(log_text(a) + log_text(b) =~= log_text(a));
    } else {
        lemma_log_text_concat(a, b.drop_last());
        assert((a + b).drop_last() =~= a + b.drop_last());
        assert(log_text(a + b) =~= log_text(a) + log_text(b));
    }
}

/// During a match, every frame adds exactly one line, in the order of the
/// calls: line `v.lines.len() + i` is that of the `i`-th sample, and the
/// text of the log carries the new lines after the old ones.
pub proof fn lemma_records_in_order(v: LoggerView, samples: Seq<(i32, Seq<char>, Seq<char>)>)
    requires
        v.phase == MatchPhase::Active,
    ensures
        record_all(v, samples).phase == MatchPhase::Active,
        record_all(v, samples).lines == v.lines + lines_of(samples),
        record_all(v, samples).lines.len() == v.lines.len() + samples.len(),
        log_text(record_all(v, samples).lines) == log_text(v.lines) + log_text(lines_of(samples)),
    decreases samples.len(),
{
    lemma_log_text_concat(v.lines, lines_of(samples));
    if samples.len() > 0 {
        lemma_records_in_order(v, samples.drop_last());
        assert(lines_of(samples) =~= lines_of(samples.drop_last()).push(samples.last().2));
        assert(v.lines + lines_of(samples) =~= (v.lines + lines_of(samples.drop_last())).push(
            samples.last().2,
        ));
    }
}

/// A successful export empties the buffer and ends the match.
pub proof fn lemma_export_empties(v: LoggerView)
    requires
        v.phase == MatchPhase::Flushing,
    ensures
        export_step(v, Ok(())).lines.len() == 0,
        export_step(v, Ok(())).phase == MatchPhase::Idle,
{
}

/// An export that a boundary notification starts ends in `Idle` whatever
/// the host reports: at once on success, and after at most one retry on
/// failure. This is the settling that the phase tracker counts on.
pub proof fn lemma_export_settles(v: LoggerView, c: Boundary, first: Result<(), ExportError>, second: Result<(), ExportError>)
    requires
        v.phase == MatchPhase::Active,
        c.result_mode,
    ensures
        boundary_step(v, c).phase == MatchPhase::Flushing,
        boundary_step(v, c).phase == boundary_phase(v.phase, c),
        first is Ok ==> export_step(boundary_step(v, c), first).phase == settled_phase(v.phase, c),
        first is Err ==> export_step(export_step(boundary_step(v, c), first), second).phase
            == settled_phase(v.phase, c),
{
}

/// Nothing but a successful export takes lines away: boundary notifications
/// keep the buffer, a frame keeps it or adds one line at its end, and a
/// failed export keeps it.
pub proof fn lemma_only_export_empties(
    v: LoggerView,
    c: Boundary,
    id: i32,
    name: Seq<char>,
    line: Seq<char>,
    e: ExportError,
)
    ensures
        boundary_step(v, c).lines == v.lines,
        record_step(v, id, name, line).lines == v.lines
            || record_step(v, id, name, line).lines == v.lines.push(line),
        export_step(v, Err(e)).lines == v.lines,
{
}

/// No line leaks from one match into the next: from an emptied buffer, the
/// buffer stays empty through any calls made before a match is active, so
/// the next match starts with an empty buffer.
pub proof fn lemma_no_leakage(v: LoggerView, es: Seq<LogEvent>)
    requires
        v.lines.len() == 0,
        forall|k: int| 0 <= k < es.len() ==> (#[trigger] run_events(v, es.take(k))).phase
            != MatchPhase::Active,
    ensures
        run_events(v, es).lines.len() == 0,
    decreases es.len(),
{
    if es.len() > 0 {
        let init = es.drop_last();
        assert forall|k: int| 0 <= k < init.len() implies (#[trigger] run_events(
            v,
            init.take(k),
        )).phase != MatchPhase::Active by {
            assert(init.take(k) =~= es.take(k));
            assert(run_events(v, es.take(k)).phase != MatchPhase::Active);
        }
        lemma_no_leakage(v, init);
        assert(es.take(init.len() as int) =~= init);
        assert(run_events(v, es.take(init.len() as int)).phase != MatchPhase::Active);
    }
}

/// The first name seen for each slot in a match is the one kept: later
/// samples with other names for the same slot change nothing, and the export
/// of the match is named after the first names.
pub proof fn lemma_first_name_wins(v: LoggerView, samples: Seq<(i32, Seq<char>, Seq<char>)>)
    requires
        v.phase == MatchPhase::Active,
        v.player1 is None,
        v.player2 is None,
    ensures
        record_all(v, samples).player1 == first_name(samples, 0),
        record_all(v, samples).player2 == first_name(samples, 1),
        first_name(samples, 0) matches Some(a) ==> first_name(samples, 1) matches Some(b)
            ==> export_identifier(record_all(v, samples), None) == fight_identifier(a, b),
    decreases samples.len(),
{
    if samples.len() > 0 {
        lemma_first_name_wins(v, samples.drop_last());
        lemma_records_in_order(v, samples.drop_last());
    }
}

} // verus!
