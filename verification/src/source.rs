//! Where the candidate URLs come from.

use vstd::prelude::*;

verus! {

/// The three sources of candidates, and the case that none was named.
#[derive(Debug, Clone, Copy, PartialEq, Eq, Structural)]
pub enum SourceMode {
    /// The argument itself is the one candidate.
    FromLine,
    /// The argument names a file with one candidate per line.
    FromFile,
    /// Candidates are read line by line from the input stream.
    FromStream,
    /// No argument and no stream: there are no candidates.
    Absent,
}

/// Why no candidates could be produced.
#[derive(Debug, Clone, Copy, PartialEq, Eq, Structural)]
pub enum SourceError {
    /// The designated file or stream could not be opened.
    SourceUnavailable,
}

/// The mode for the given choices. The stream wins over the argument; an
/// argument that names no existing path is taken as a literal URL.
pub open spec fn mode_of(from_stream: bool, has_argument: bool, path_exists: bool) -> SourceMode {
    if from_stream {
        SourceMode::FromStream
    } else if !has_argument {
        SourceMode::Absent
    } else if path_exists {
        SourceMode::FromFile
    } else {
        SourceMode::FromLine
    }
}

/// Picks the source of candidates.
pub fn select_source(from_stream: bool, has_argument: bool, path_exists: bool) -> (mode: SourceMode)
    ensures
        mode == mode_of(from_stream, has_argument, path_exists),
{
    if from_stream {
        SourceMode::FromStream
    } else if !has_argument {
        SourceMode::Absent
    } else if path_exists {
        SourceMode::FromFile
    } else {
        SourceMode::FromLine
    }
}

/// The candidates of a source: the argument alone, the lines that were read,
/// or nothing. `lines` is `None` where the file or stream could not be opened.
pub open spec fn candidates_of(
    mode: SourceMode,
    argument: Option<Seq<char>>,
    lines: Option<Seq<Seq<char>>>,
) -> Result<Seq<Seq<char>>, SourceError> {
    match mode {
        SourceMode::FromLine => match argument {
            Some(a) => Ok(seq![a]),
            None => Ok(Seq::empty()),
        },
        SourceMode::FromFile | SourceMode::FromStream => match lines {
            Some(l) => Ok(l),
            None => Err(SourceError::SourceUnavailable),
        },
        SourceMode::Absent => Ok(Seq::empty()),
    }
}

/// Produces the ordered candidates of the chosen source. Nothing is
/// deduplicated, reordered or checked here.
pub fn resolve_candidates(
    mode: SourceMode,
    argument: Option<String>,
    lines: Option<Vec<String>>,
) -> (r: Result<Vec<String>, SourceError>)
    ensures
        match r {
            Ok(c) => Ok::<Seq<Seq<char>>, SourceError>(c.deep_view()),
            Err(e) => Err(e),
        } == candidates_of(
            mode,
            match argument {
                Some(a) => Some(a@),
                None => None,
            },
            match lines {
                Some(l) => Some(l.deep_view()),
                None => None,
            },
        ),
{
    match mode {
        SourceMode::FromLine => {
            let mut only: Vec<String> = Vec::new();
            match argument {
                Some(a) => {
                    let ghost text = a@;
                    only.push(a);
                    assert(only.deep_view() =~= seq![text]);
                },
                None => {
                    assert(only.deep_view() =~= Seq::<Seq<char>>::empty());
                },
            }
            Ok(only)
        },
        SourceMode::FromFile | SourceMode::FromStream => match lines {
            Some(l) => Ok(l),
            None => Err(SourceError::SourceUnavailable),
        },
        SourceMode::Absent => {
            let none: Vec<String> = Vec::new();
            assert(none.deep_view() =~= Seq::<Seq<char>>::empty());
            Ok(none)
        },
    }
}

} // verus!
