//! Explicit model of the terminal area the transcription loop writes to.
//!
//! The loop renders on a single rewritable line (the current partial text)
//! above a history of permanently appended lines (finalized utterances).
//! Rather than leave that as ambient terminal state, the loop carries an
//! explicit handle with an explicit "nothing written yet" state, so that
//! clearing the current line is always safe.

use vstd::prelude::*;

verus! {

/// Mathematical model of the terminal area: the permanently appended lines
/// in order, and the rewritable line's text (`None` when nothing is
/// rendered there).
#[verifier::ext_equal]
pub struct SpecDisplay {
    pub history: Seq<Seq<char>>,
    pub current: Option<Seq<char>>,
}

/// The display with nothing written yet.
pub open spec fn empty_display() -> SpecDisplay {
    SpecDisplay { history: Seq::empty(), current: None }
}

/// The display after the rewritable line is erased.
pub open spec fn cleared(d: SpecDisplay) -> SpecDisplay {
    SpecDisplay { history: d.history, current: None }
}

/// The display after `t` is written in place on the rewritable line.
pub open spec fn with_partial(d: SpecDisplay, t: Seq<char>) -> SpecDisplay {
    SpecDisplay { history: d.history, current: Some(t) }
}

/// The display after `t` is appended as a permanent line; the rewritable
/// line starts fresh afterwards.
pub open spec fn with_final(d: SpecDisplay, t: Seq<char>) -> SpecDisplay {
    SpecDisplay { history: d.history.push(t), current: None }
}

/// Handle on the terminal line state, passed explicitly to the
/// transcription loop.
#[derive(Debug)]
pub struct LineDisplay {
    history: Vec<String>,
    current: Option<String>,
}

impl View for LineDisplay {
    type V = SpecDisplay;

    closed spec fn view(&self) -> SpecDisplay {
        SpecDisplay {
            history: self.history.deep_view(),
            current: match self.current {
                Some(t) => Some(t@),
                None => None,
            },
        }
    }
}

impl LineDisplay {
    /// A display with nothing written yet.
    pub fn new() -> (d: LineDisplay)
        ensures
            d@ == empty_display(),
    {
        let d = LineDisplay { history: Vec::new(), current: None };
        proof {
            assert(d@ =~= empty_display());
        }
        d
    }

    /// Erases the rewritable line. Safe to call when nothing was written;
    /// the appended history is untouched.
    pub fn clear_current_line(&mut self)
        ensures
            final(self)@ == cleared(old(self)@),
    {
        self.current = None;
        proof {
            assert(self@ =~= cleared(old(self)@));
        }
    }

    /// Overwrites the rewritable line with `text`.
    pub fn write_partial(&mut self, text: String)
        ensures
            final(self)@ == with_partial(old(self)@, text@),
    {
        self.current = Some(text);
        proof {
            assert(self@ =~= with_partial(old(self)@, self.current->Some_0@));
        }
    }

    /// Appends `text` as a permanent line; the rewritable line starts fresh
    /// afterwards.
    pub fn write_final(&mut self, text: String)
        requires
            text@.len() > 0,
        ensures
            final(self)@ == with_final(old(self)@, text@),
    {
        let ghost t = text@;
        self.history.push(text);
        self.current = None;
        proof {
            assert(self.history.deep_view() =~= old(self).history.deep_view().push(t));
            assert(self@ =~= with_final(old(self)@, t));
        }
    }

    /// Number of permanently appended lines.
    pub fn line_count(&self) -> (n: usize)
        ensures
            n == self@.history.len(),
    {
        self.history.len()
    }

    /// The `i`-th permanently appended line, oldest first.
    pub fn line(&self, i: usize) -> (t: &String)
        requires
            i < self@.history.len(),
        ensures
            t@ == self@.history[i as int],
    {
        &self.history[i]
    }

    /// The text currently rendered on the rewritable line, if any.
    pub fn current_line(&self) -> (c: &Option<String>)
        ensures
            match c {
                Some(t) => self@.current == Some(t@),
                None => self@.current is None,
            },
    {
        &self.current
    }
}

/// Idempotence of line clearing: clearing the rewritable line twice leaves
/// the display exactly as clearing it once does.
pub proof fn lemma_clear_idempotent(d: SpecDisplay)
    ensures
        cleared(cleared(d)) == cleared(d),
{
    assert(cleared(cleared(d)) =~= cleared(d));
}

} // verus!
