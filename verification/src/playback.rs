//! What a playback does over many ticks: how long it runs under each repeat
//! policy and which colours it shows. All of it is stated for ticks whose
//! writes succeed.
use vstd::prelude::*;
use crate::colour::Rgb;
use crate::led::{track_colour, track_step, Repeat, Track};

verus! {

/// The track after `ticks` ticks; `None` once the playback has ended.
pub open spec fn run(track: Option<Track>, ticks: nat) -> Option<Track>
    decreases ticks,
{
    if ticks == 0 {
        track
    } else {
        run(track_step(track), (ticks - 1) as nat)
    }
}

/// The colours written during the first `ticks` ticks, in order.
pub open spec fn shown(track: Option<Track>, ticks: nat) -> Seq<Rgb>
    decreases ticks,
{
    if ticks == 0 {
        Seq::empty()
    } else {
        let first = match track_colour(track) {
            Some(colour) => seq![colour],
            None => Seq::empty(),
        };
        first + shown(track_step(track), (ticks - 1) as nat)
    }
}

/// A sequence written out `times` times in a row.
pub open spec fn repeated(sequence: Seq<Rgb>, times: nat) -> Seq<Rgb>
    decreases times,
{
    if times == 0 {
        Seq::empty()
    } else {
        sequence + repeated(sequence, (times - 1) as nat)
    }
}

/// A playback of `sequence` at its start.
pub open spec fn fresh(sequence: Seq<Rgb>, repeat: Repeat) -> Option<Track> {
    Some(Track { sequence, index: 0, repeat })
}

/// A single tick: one step of the track, and the colour that was due.
pub proof fn lemma_one_tick(track: Option<Track>)
    ensures
        run(track, 1) == track_step(track),
        shown(track, 1) == (match track_colour(track) {
            Some(colour) => seq![colour],
            None => Seq::<Rgb>::empty(),
        }),
{
    reveal_with_fuel(run, 2);
    reveal_with_fuel(shown, 2);
    assert(shown(track, 1) =~= (match track_colour(track) {
        Some(colour) => seq![colour],
        None => Seq::<Rgb>::empty(),
    }));
}

/// Running `a + b` ticks is running `a` ticks and then `b` more.
pub proof fn lemma_run_split(track: Option<Track>, a: nat, b: nat)
    ensures
        run(track, a + b) == run(run(track, a), b),
        shown(track, a + b) == shown(track, a) + shown(run(track, a), b),
    decreases a,
{
    if a == 0 {
        assert(shown(track, a + b) =~= shown(track, a) + shown(run(track, a), b));
    } else {
        lemma_run_split(track_step(track), (a - 1) as nat, b);
        assert(shown(track, a + b) =~= shown(track, a) + shown(run(track, a), b));
    }
}

/// An ended playback stays ended and writes nothing.
pub proof fn lemma_ended_stays(ticks: nat)
    ensures
        run(None, ticks) is None,
        shown(None, ticks) == Seq::<Rgb>::empty(),
    decreases ticks,
{
    if ticks > 0 {
        lemma_ended_stays((ticks - 1) as nat);
        assert(shown(None, ticks) =~= Seq::<Rgb>::empty());
    }
}

/// While colours are left, each tick writes the next one and moves on by one.
pub proof fn lemma_play_through(track: Track, ticks: nat)
    requires
        track.index + ticks <= track.sequence.len(),
    ensures
        run(Some(track), ticks) == Some(Track { index: track.index + ticks, ..track }),
        shown(Some(track), ticks) == track.sequence.subrange(
            track.index as int,
            (track.index + ticks) as int,
        ),
    decreases ticks,
{
    if ticks == 0 {
        assert(shown(Some(track), ticks) =~= track.sequence.subrange(
            track.index as int,
            (track.index + ticks) as int,
        ));
    } else {
        let stepped = Track { index: track.index + 1, ..track };
        lemma_play_through(stepped, (ticks - 1) as nat);
        assert(shown(Some(track), ticks) =~= track.sequence.subrange(
            track.index as int,
            (track.index + ticks) as int,
        ));
    }
}

/// One pass over the whole sequence from its start: as many ticks as it has
/// colours, each written once and in order, and the playback still armed.
pub proof fn lemma_pass(sequence: Seq<Rgb>, repeat: Repeat)
    ensures
        run(fresh(sequence, repeat), sequence.len()) == Some(
            Track { sequence, index: sequence.len(), repeat },
        ),
        shown(fresh(sequence, repeat), sequence.len()) == sequence,
{
    let start = Track { sequence, index: 0, repeat };
    lemma_play_through(start, sequence.len());
    assert(sequence.subrange(0, sequence.len() as int) =~= sequence);
}

/// Under `Once` the playback writes each colour once, in order, during the
/// first `len` ticks, is still armed after them, ends at the tick after the
/// last colour without writing, and never writes again.
pub proof fn lemma_once(sequence: Seq<Rgb>, ticks: nat)
    ensures
        shown(fresh(sequence, Repeat::Once), sequence.len()) == sequence,
        run(fresh(sequence, Repeat::Once), sequence.len()) is Some,
        run(fresh(sequence, Repeat::Once), sequence.len() + 1) is None,
        ticks > sequence.len() ==> run(fresh(sequence, Repeat::Once), ticks) is None && shown(
            fresh(sequence, Repeat::Once),
            ticks,
        ) == sequence,
{
    let start = fresh(sequence, Repeat::Once);
    let len = sequence.len();
    lemma_pass(sequence, Repeat::Once);
    lemma_run_split(start, len, 1);
    lemma_one_tick(run(start, len));
    assert(shown(start, len + 1) =~= sequence);
    if ticks > len {
        let rest = (ticks - len - 1) as nat;
        lemma_run_split(start, len + 1, rest);
        lemma_ended_stays(rest);
        assert(shown(start, ticks) =~= sequence);
    }
}

/// The number of ticks a playback under `N(count)` takes to end: one per
/// colour and one more to wrap or end, for each of its `count + 1` passes.
pub open spec fn ticks_to_end(len: nat, count: u8) -> nat {
    (len + 1) * (count as nat + 1)
}

/// Under `N(count)` the playback writes the sequence `count + 1` times over,
/// so `len * (count + 1)` pixels; it ends with the tick numbered
/// `ticks_to_end`, not before, and writes nothing after.
pub proof fn lemma_counted(sequence: Seq<Rgb>, count: u8, ticks: nat)
    ensures
        ticks < ticks_to_end(sequence.len(), count) ==> run(
            fresh(sequence, Repeat::N(count)),
            ticks,
        ) is Some,
        ticks >= ticks_to_end(sequence.len(), count) ==> run(
            fresh(sequence, Repeat::N(count)),
            ticks,
        ) is None && shown(fresh(sequence, Repeat::N(count)), ticks) == repeated(
            sequence,
            count as nat + 1,
        ),
        repeated(sequence, count as nat + 1).len() == sequence.len() * (count as nat + 1),
    decreases count,
{
    let start = fresh(sequence, Repeat::N(count));
    let len = sequence.len();
    let pass = len + 1;
    lemma_pass(sequence, Repeat::N(count));
    lemma_run_split(start, len, 1);
    lemma_one_tick(run(start, len));
    assert(shown(start, pass) =~= sequence);
    assert(repeated(sequence, 1) =~= sequence) by {
        assert(repeated(sequence, 0) =~= Seq::<Rgb>::empty());
    }
    if ticks < pass {
        if ticks <= len {
            lemma_play_through(Track { sequence, index: 0, repeat: Repeat::N(count) }, ticks);
        }
    }
    if count == 0 {
        assert(ticks_to_end(len, count) == pass) by (nonlinear_arith)
            requires
                count == 0,
                pass == len + 1,
        ;
        assert(run(start, pass) is None);
        if ticks >= pass {
            let rest = (ticks - pass) as nat;
            lemma_run_split(start, pass, rest);
            lemma_ended_stays(rest);
            assert(shown(start, ticks) =~= sequence);
        }
        assert(repeated(sequence, 1).len() == len * 1);
    } else {
        let less = (count - 1) as u8;
        assert(run(start, pass) == fresh(sequence, Repeat::N(less)));
        assert(ticks_to_end(len, count) == pass + ticks_to_end(len, less)) by (nonlinear_arith)
            requires
                count >= 1,
                less == count - 1,
                pass == len + 1,
        ;
        assert(len * (count as nat + 1) == len + len * (less as nat + 1)) by (nonlinear_arith)
            requires
                count >= 1,
                less == count - 1,
        ;
        assert(repeated(sequence, count as nat + 1) =~= sequence + repeated(
            sequence,
            less as nat + 1,
        ));
        if ticks >= pass {
            let rest = (ticks - pass) as nat;
            lemma_run_split(start, pass, rest);
            lemma_counted(sequence, less, rest);
        } else {
            lemma_counted(sequence, less, 0);
        }
    }
}

/// A track under `Forever` never ends, wherever it stands.
pub proof fn lemma_forever_alive(track: Track, ticks: nat)
    requires
        track.repeat == Repeat::Forever,
    ensures
        run(Some(track), ticks) matches Some(t) && t.repeat == Repeat::Forever && t.sequence
            == track.sequence,
    decreases ticks,
{
    if ticks > 0 {
        let stepped = track_step(Some(track));
        lemma_forever_alive(stepped->0, (ticks - 1) as nat);
    }
}

/// Under `Forever` the playback is back at its start after one pass and the
/// tick that wraps, having written the sequence once; so what it does at a
/// tick it does again `len + 1` ticks later, and it never ends.
pub proof fn lemma_forever(sequence: Seq<Rgb>, ticks: nat)
    ensures
        run(fresh(sequence, Repeat::Forever), sequence.len() + 1) == fresh(
            sequence,
            Repeat::Forever,
        ),
        shown(fresh(sequence, Repeat::Forever), sequence.len() + 1) == sequence,
        run(fresh(sequence, Repeat::Forever), ticks) is Some,
        run(fresh(sequence, Repeat::Forever), ticks + (sequence.len() + 1)) == run(
            fresh(sequence, Repeat::Forever),
            ticks,
        ),
        track_colour(run(fresh(sequence, Repeat::Forever), ticks + (sequence.len() + 1)))
            == track_colour(run(fresh(sequence, Repeat::Forever), ticks)),
{
    let start = fresh(sequence, Repeat::Forever);
    let len = sequence.len();
    lemma_pass(sequence, Repeat::Forever);
    lemma_run_split(start, len, 1);
    lemma_one_tick(run(start, len));
    assert(shown(start, len + 1) =~= sequence);
    lemma_forever_alive(start->0, ticks);
    lemma_run_split(start, len + 1, ticks);
    assert((len + 1) + ticks == ticks + (len + 1));
}

/// Under `Forever` every `len + 1` ticks write the sequence once more: after
/// `passes` such rounds the writes are the sequence `passes` times over.
pub proof fn lemma_forever_writes(sequence: Seq<Rgb>, passes: nat)
    ensures
        shown(fresh(sequence, Repeat::Forever), passes * (sequence.len() + 1)) == repeated(
            sequence,
            passes,
        ),
    decreases passes,
{
    let start = fresh(sequence, Repeat::Forever);
    let round = sequence.len() + 1;
    if passes == 0 {
        assert(passes * round == 0) by (nonlinear_arith)
            requires
                passes == 0,
        ;
    } else {
        let fewer = (passes - 1) as nat;
        assert(passes * round == round + fewer * round) by (nonlinear_arith)
            requires
                passes == fewer + 1,
        ;
        lemma_forever(sequence, 0);
        lemma_run_split(start, round, fewer * round);
        lemma_forever_writes(sequence, fewer);
    }
}

} // verus!
