use vstd::prelude::*;

use crate::location::{location_text, Location};

verus! {

/// What an [`Error`] holds, as a mathematical value: the underlying error and
/// the trail of frames, innermost first, or `None` for an untraced error.
pub struct Trace<E> {
    pub source: E,
    pub trail: Option<Seq<Location>>,
}

/// An error together with the call sites it has been propagated through.
///
/// An error made by [`Error::plain`] carries no trail and never gains one:
/// it is deliberately marked as untraced, and chaining it again leaves it so.
#[derive(Debug)]
pub struct Error<E> {
    source: E,
    location: Option<Vec<Location>>,
}

/// A failure value at a propagation point: either a fresh underlying error
/// or an error of this library that already carries its trail.
pub enum Raised<E> {
    Fresh(E),
    Traced(Error<E>),
}

/// The untraced error made from `source`.
pub open spec fn plain_trace<E>(source: E) -> Trace<E> {
    Trace { source, trail: None }
}

/// The trail after one more propagation through `at`: a present trail gains
/// `at` at its end, an absent one stays absent.
pub open spec fn extend_trail(trail: Option<Seq<Location>>, at: Location) -> Option<Seq<Location>> {
    match trail {
        Some(frames) => Some(frames.push(at)),
        None => None,
    }
}

/// What chaining `raised` at `at` yields.
pub open spec fn chain_trace<E>(raised: Raised<E>, at: Location) -> Trace<E> {
    match raised {
        Raised::Fresh(source) => Trace { source, trail: Some(seq![at]) },
        Raised::Traced(error) => Trace { source: error@.source, trail: extend_trail(error@.trail, at) },
    }
}

/// The lines that follow the underlying error's text: one per frame, in
/// trail order, each ended by a line break.
pub open spec fn frames_text(frames: Seq<Location>) -> Seq<char>
    decreases frames.len(),
{
    if frames.len() == 0 {
        Seq::empty()
    } else {
        frames_text(frames.drop_last()) + location_text(frames.last()) + seq!['\n']
    }
}

/// The display form of a trace whose underlying error displays as `source_text`.
pub open spec fn trace_text<E>(t: Trace<E>, source_text: Seq<char>) -> Seq<char> {
    match t.trail {
        Some(frames) => source_text + seq!['\n'] + frames_text(frames),
        None => source_text,
    }
}

impl<E> View for Error<E> {
    type V = Trace<E>;

    closed spec fn view(&self) -> Trace<E> {
        Trace {
            source: self.source,
            trail: match self.location {
                Some(v) => Some(v@),
                None => None,
            },
        }
    }
}

impl<E> Error<E> {
    /// Wraps `error` without a trail: the result is untraced for good.
    pub fn plain(error: E) -> (r: Self)
        ensures
            r@ == plain_trace(error),
    {
        Error { source: error, location: None }
    }

    /// Records the call site `file`:`line` in `func` on a propagating failure.
    ///
    /// A fresh underlying error starts a trail of that one frame. An error that
    /// already carries a trail gets the frame appended at its end. An untraced
    /// error (see [`Error::plain`]) is handed back unchanged: the frame is
    /// dropped on purpose.
    pub fn chain(error: Raised<E>, file: &'static str, line: u32, func: &'static str) -> (r: Self)
        ensures
            r@ == chain_trace(error, Location { file, line, func }),
    {
        let at = Location { file, line, func };
        match error {
            Raised::Fresh(source) => {
                let mut frames: Vec<Location> = Vec::new();
                frames.push(at);
                proof {
                    assert(frames@ =~= seq![at]);
                }
                Error { source, location: Some(frames) }
            },
            Raised::Traced(error) => {
                let Error { source, location } = error;
                match location {
                    Some(mut frames) => {
                        frames.push(at);
                        Error { source, location: Some(frames) }
                    },
                    None => Error { source, location: None },
                }
            },
        }
    }

    /// The trail, innermost call site first, or `None` for an untraced error.
    pub fn location(&self) -> (r: Option<&[Location]>)
        ensures
            match r {
                Some(frames) => self@.trail == Some(frames@),
                None => self@.trail is None,
            },
    {
        match &self.location {
            Some(frames) => Some(frames.as_slice()),
            None => None,
        }
    }

    /// The underlying error, whatever the length of the trail.
    pub fn source(&self) -> (r: &E)
        ensures
            *r == self@.source,
    {
        &self.source
    }

    /// The display form of this error, given the display text of the
    /// underlying error: that text, then, when a trail is present, a line
    /// break and one line per frame, each ended by a line break.
    pub fn render(&self, source_text: &str) -> (r: String)
        ensures
            r@ == trace_text(self@, source_text@),
    {
        let mut out = String::from_str(source_text);
        match &self.location {
            Some(frames) => {
                proof {
                    reveal_strlit("\n");
                }
                out.append("\n");
                let ghost head = out@;
                let mut i: usize = 0;
                while i < frames.len()
                    invariant
                        0 <= i <= frames@.len(),
                        out@ == head + frames_text(frames@.subrange(0, i as int)),
                    decreases frames@.len() - i,
                {
                    frames[i].write_to(&mut out);
                    out.append("\n");
                    proof {
                        reveal_strlit("\n");
                        let done = frames@.subrange(0, i as int + 1);
                        assert(done.drop_last() =~= frames@.subrange(0, i as int));
                        assert(done.last() == frames@[i as int]);
                        assert(out@ =~= head + frames_text(done));
                    }
                    i = i + 1;
                }
                assert(frames@.subrange(0, i as int) =~= frames@);
            },
            None => {},
        }
        out
    }
}

} // verus!
