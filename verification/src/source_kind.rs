use vstd::prelude::*;

verus! {

/// The data provider a trip was imported from.
///
/// Marked `#[non_exhaustive]` so adding new sources in a future release
/// doesn't break existing `match` arms in caller code.
#[derive(Debug, Clone, Copy, PartialEq, Eq, Hash, Structural)]
#[non_exhaustive]
pub enum SourceKind {
    Gpx,
    Strava,
    ConnectedCars,
    GoogleTimeline,
}

/// The name of a provider as its variant is spelled, which is how it is
/// printed in diagnostics and written in JSON.
pub open spec fn kind_name(kind: SourceKind) -> Seq<char> {
    match kind {
        SourceKind::Gpx => seq!['G', 'p', 'x'],
        SourceKind::Strava => seq!['S', 't', 'r', 'a', 'v', 'a'],
        SourceKind::ConnectedCars => seq![
            'C', 'o', 'n', 'n', 'e', 'c', 't', 'e', 'd', 'C', 'a', 'r', 's',
        ],
        SourceKind::GoogleTimeline => seq![
            'G', 'o', 'o', 'g', 'l', 'e', 'T', 'i', 'm', 'e', 'l', 'i', 'n', 'e',
        ],
    }
}

impl SourceKind {
    /// The variant's name, e.g. `"Gpx"`.
    pub fn name(&self) -> (name: &'static str)
        ensures
            name@ == kind_name(*self),
    {
        match self {
            SourceKind::Gpx => {
                proof {
                    reveal_strlit("Gpx");
                }
                "Gpx"
            },
            SourceKind::Strava => {
                proof {
                    reveal_strlit("Strava");
                }
                "Strava"
            },
            SourceKind::ConnectedCars => {
                proof {
                    reveal_strlit("ConnectedCars");
                }
                "ConnectedCars"
            },
            SourceKind::GoogleTimeline => {
                proof {
                    reveal_strlit("GoogleTimeline");
                }
                "GoogleTimeline"
            },
        }
    }
}

/// Different providers have different names, so a name identifies the
/// provider it was printed for.
pub proof fn lemma_kind_names_are_distinct(a: SourceKind, b: SourceKind)
    ensures
        kind_name(a) == kind_name(b) ==> a == b,
{
    if kind_name(a) == kind_name(b) && a != b {
        assert(kind_name(a).len() == kind_name(b).len());
        assert(kind_name(a)[0] == kind_name(b)[0]);
        assert(kind_name(a)[1] == kind_name(b)[1]);
    }
}

} // verus!
