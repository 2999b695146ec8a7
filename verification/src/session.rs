//! The trainer session: the input-matching state machine that consumes
//! directional key events against the current target's keycode.
//!
//! A session owns the current target and the buffer of directions matched so
//! far. A matching direction extends the buffer; completing the keycode
//! clears the buffer and draws a new random target; a mismatching direction
//! clears the buffer and keeps the target, so the user retries from scratch.

use vstd::prelude::*;
use vstd::string::StringExecFns;
use crate::db::{Code, Stratagem, lemma_keycode_nonempty};

verus! {

/// What processing one directional event did to the session.
#[derive(Debug, PartialEq, Eq, Structural, Copy, Clone)]
pub enum Outcome {
    /// The session stays on the same target (the direction matched but the
    /// keycode is not complete yet, or it mismatched and the buffer reset).
    Continued,
    /// The direction completed the keycode: the buffer was cleared and a new
    /// random target was drawn.
    Advanced,
}

/// The glyph string for a direction sequence: each direction's arrow glyph,
/// concatenated in order with no separator.
pub open spec fn glyphs_spec(codes: Seq<Code>) -> Seq<char>
    decreases codes.len(),
{
    if codes.len() == 0 {
        Seq::empty()
    } else {
        glyphs_spec(codes.drop_last()) + codes.last().arrow_spec()
    }
}

/// Renders a direction sequence as its glyph string.
pub fn get_keycode_str(keycode_vec: &Vec<Code>) -> (r: String)
    ensures
        r@ == glyphs_spec(keycode_vec@),
{
    let mut s = String::new();
    let mut i: usize = 0;
    while i < keycode_vec.len()
        invariant
            i <= keycode_vec.len(),
            s@ == glyphs_spec(keycode_vec@.take(i as int)),
        decreases keycode_vec.len() - i,
    {
        s.append(keycode_vec[i].get_arrow());
        proof {
            assert(keycode_vec@.take(i + 1).drop_last() =~= keycode_vec@.take(i as int));
        }
        i += 1;
    }
    proof {
        assert(keycode_vec@.take(keycode_vec@.len() as int) =~= keycode_vec@);
    }
    s
}

/// Whether `input` is the next expected direction of `target` when `buffer`
/// directions have been matched already.
pub open spec fn step_matches(target: Seq<Code>, buffer: Seq<Code>, input: Code) -> bool {
    buffer.len() < target.len() && input == target[buffer.len() as int]
}

/// The outcome of processing `input`: `Advanced` exactly when it is the last
/// missing direction of the target's keycode.
pub open spec fn step_outcome(target: Seq<Code>, buffer: Seq<Code>, input: Code) -> Outcome {
    if step_matches(target, buffer, input) && buffer.len() + 1 == target.len() {
        Outcome::Advanced
    } else {
        Outcome::Continued
    }
}

/// The buffer after processing `input`: extended on a partial match, empty
/// after a completed keycode or a mismatch.
pub open spec fn next_buffer(target: Seq<Code>, buffer: Seq<Code>, input: Code) -> Seq<Code> {
    if step_matches(target, buffer, input) {
        if buffer.len() + 1 == target.len() {
            Seq::empty()
        } else {
            buffer.push(input)
        }
    } else {
        Seq::empty()
    }
}

/// The display data a host pulls after every event to refresh its view.
#[derive(Debug)]
pub struct DisplayState {
    /// Name of the current target, for the text prompt.
    pub target_display_name: String,
    /// Icon path of the current target.
    pub target_image_reference: String,
    /// The glyphs of the directions buffered so far.
    pub rendered_buffer_glyphs: String,
}

/// A trainer session: the current target and the directions matched so far.
pub struct Session {
    /// The stratagem whose keycode the user is currently entering.
    pub target: Stratagem,
    /// The correctly entered prefix of the target's keycode.
    pub buffer: Vec<Code>,
}

impl Session {
    /// The session invariant: the buffer is a strict prefix of the target's
    /// keycode, so the next expected direction always exists.
    pub open spec fn wf(self) -> bool {
        &&& self.buffer@.len() < self.target.keycode_spec().len()
        &&& self.buffer@ == self.target.keycode_spec().take(self.buffer@.len() as int)
    }

    /// Starts a session on the given target with an empty buffer.
    pub fn new(target: Stratagem) -> (s: Session)
        ensures
            s.wf(),
            s.target == target,
            s.buffer@ == Seq::<Code>::empty(),
    {
        let s = Session { target, buffer: Vec::new() };
        proof {
            lemma_keycode_nonempty(target);
            assert(s.buffer@ =~= s.target.keycode_spec().take(0));
        }
        s
    }

    /// Starts a session on a randomly drawn target with an empty buffer.
    pub fn new_random() -> (s: Session)
        ensures
            s.wf(),
            s.buffer@ == Seq::<Code>::empty(),
    {
        Session::new(crate::rng::random_stratagem())
    }

    /// Processes one directional key event.
    ///
    /// The outcome and the new buffer follow `step_outcome` and `next_buffer`
    /// on the old state; the target changes only on `Advanced`, where a new
    /// one is drawn at random.
    pub fn process_direction(&mut self, input: Code) -> (o: Outcome)
        requires
            old(self).wf(),
        ensures
            final(self).wf(),
            o == step_outcome(old(self).target.keycode_spec(), old(self).buffer@, input),
            final(self).buffer@ == next_buffer(old(self).target.keycode_spec(), old(self).buffer@, input),
            o == Outcome::Continued ==> final(self).target == old(self).target,
    {
        let keycode = self.target.get_keycode();
        if input == keycode[self.buffer.len()] {
            self.buffer.push(input);
            if self.buffer.len() == keycode.len() {
                self.buffer.clear();
                self.target = crate::rng::random_stratagem();
                proof {
                    lemma_keycode_nonempty(self.target);
                    assert(self.buffer@ =~= self.target.keycode_spec().take(0));
                }
                Outcome::Advanced
            } else {
                proof {
                    assert(self.buffer@ =~= self.target.keycode_spec().take(
                        self.buffer@.len() as int,
                    ));
                }
                Outcome::Continued
            }
        } else {
            self.buffer.clear();
            proof {
                assert(self.buffer@ =~= self.target.keycode_spec().take(0));
            }
            Outcome::Continued
        }
    }

    /// Clears the buffer and draws a new random target, whatever the buffer
    /// held. A manual reset never counts as an advance; it returns the new
    /// target for a display refresh.
    pub fn manual_reset(&mut self) -> (t: Stratagem)
        ensures
            final(self).wf(),
            final(self).buffer@ == Seq::<Code>::empty(),
            t == final(self).target,
    {
        self.buffer.clear();
        self.target = crate::rng::random_stratagem();
        proof {
            lemma_keycode_nonempty(self.target);
            assert(self.buffer@ =~= self.target.keycode_spec().take(0));
        }
        self.target
    }

    /// A snapshot of what the host should display: the target's name and icon
    /// path, and the glyphs of the buffered directions. Pure projection.
    pub fn current_display_state(&self) -> (d: DisplayState)
        ensures
            d.target_display_name@ == self.target.display_name_spec(),
            d.target_image_reference@ == self.target.image_path_spec(),
            d.rendered_buffer_glyphs@ == glyphs_spec(self.buffer@),
    {
        DisplayState {
            target_display_name: self.target.display_name().to_owned(),
            target_image_reference: self.target.get_image_path(),
            rendered_buffer_glyphs: get_keycode_str(&self.buffer),
        }
    }
}

/// Entering the target's own directions in order: every direction before the
/// last matches, extends the buffer and yields `Continued`; the last one
/// completes the keycode, clears the buffer and yields `Advanced`.
pub proof fn lemma_correct_step(target: Seq<Code>, p: int)
    requires
        0 <= p < target.len(),
    ensures
        p + 1 < target.len() ==> {
            &&& step_outcome(target, target.take(p), target[p]) == Outcome::Continued
            &&& next_buffer(target, target.take(p), target[p]) == target.take(p + 1)
        },
        p + 1 == target.len() ==> {
            &&& step_outcome(target, target.take(p), target[p]) == Outcome::Advanced
            &&& next_buffer(target, target.take(p), target[p]) == Seq::<Code>::empty()
        },
{
    assert(target.take(p).push(target[p]) =~= target.take(p + 1));
}

/// A direction that is not the next expected one never advances: the outcome
/// is `Continued` and the buffer resets to empty, so the user retries the
/// same target from scratch.
pub proof fn lemma_mismatch_step(target: Seq<Code>, p: int, input: Code)
    requires
        0 <= p < target.len(),
        input != target[p],
    ensures
        step_outcome(target, target.take(p), input) == Outcome::Continued,
        next_buffer(target, target.take(p), input) == Seq::<Code>::empty(),
{
}

/// The buffer after feeding `inputs` one by one against a fixed target. The
/// session changes targets only on `Advanced`, so this describes a session
/// exactly up to and including its first `Advanced`.
pub open spec fn run_buffer(target: Seq<Code>, buffer: Seq<Code>, inputs: Seq<Code>) -> Seq<Code>
    decreases inputs.len(),
{
    if inputs.len() == 0 {
        buffer
    } else {
        run_buffer(target, next_buffer(target, buffer, inputs.first()), inputs.drop_first())
    }
}

/// How many of the steps taken while feeding `inputs` against a fixed target
/// yield `Advanced`.
pub open spec fn advanced_count(target: Seq<Code>, buffer: Seq<Code>, inputs: Seq<Code>) -> nat
    decreases inputs.len(),
{
    if inputs.len() == 0 {
        0
    } else {
        (if step_outcome(target, buffer, inputs.first()) == Outcome::Advanced {
            1nat
        } else {
            0nat
        }) + advanced_count(target, next_buffer(target, buffer, inputs.first()), inputs.drop_first())
    }
}

proof fn lemma_run_suffix(target: Seq<Code>, p: int)
    requires
        0 <= p < target.len(),
    ensures
        run_buffer(target, target.take(p), target.skip(p)) == Seq::<Code>::empty(),
        advanced_count(target, target.take(p), target.skip(p)) == 1,
    decreases target.len() - p,
{
    let inputs = target.skip(p);
    assert(inputs.first() == target[p]);
    assert(inputs.drop_first() =~= target.skip(p + 1));
    lemma_correct_step(target, p);
    if p + 1 < target.len() {
        lemma_run_suffix(target, p + 1);
        assert(run_buffer(target, target.take(p), inputs) == run_buffer(
            target,
            target.take(p + 1),
            target.skip(p + 1),
        ));
        assert(advanced_count(target, target.take(p), inputs) == advanced_count(
            target,
            target.take(p + 1),
            target.skip(p + 1),
        ));
    } else {
        assert(inputs.drop_first().len() == 0);
        assert(run_buffer(target, Seq::<Code>::empty(), inputs.drop_first())
            == Seq::<Code>::empty());
        assert(advanced_count(target, Seq::<Code>::empty(), inputs.drop_first()) == 0);
        assert(run_buffer(target, target.take(p), inputs) == Seq::<Code>::empty());
        assert(advanced_count(target, target.take(p), inputs) == 1);
    }
}

/// Round trip: feeding a target's entire keycode from an empty buffer yields
/// exactly one `Advanced` — on the final direction — and leaves the buffer
/// empty.
pub proof fn lemma_full_sequence_advances_once(target: Seq<Code>)
    requires
        target.len() >= 1,
    ensures
        run_buffer(target, Seq::<Code>::empty(), target) == Seq::<Code>::empty(),
        advanced_count(target, Seq::<Code>::empty(), target) == 1,
{
    assert(target.take(0) =~= Seq::<Code>::empty());
    assert(target.skip(0) =~= target);
    lemma_run_suffix(target, 0);
}

} // verus!
