//! The stop finder's rules: the search it puts to the transit source, and what it
//! does with the answers typed at its prompts.

use vstd::prelude::*;
use crate::enumerate::{Enumerate, YesNo};
use crate::query::DepartureConfig;

verus! {

/// The parameters of a search for stops by name.
#[derive(Debug, Clone)]
pub struct SearchParams {
    pub output_format: &'static str,
    pub type_sf: &'static str,
    /// The largest number of hits asked for.
    pub matches: u32,
    /// The name, or part of a name, searched for.
    pub search: String,
}

impl SearchParams {
    /// Whether the parameters that no builder changes have their fixed values: JSON
    /// output, any kind of stop.
    pub open spec fn has_fixed_parts(&self) -> bool {
        &&& self.output_format@ == "JSON"@
        &&& self.type_sf@ == "any"@
    }

    /// The search with `matches` as the largest number of hits asked for.
    pub fn matches(self, matches: u32) -> (made: Self)
        ensures
            made == (SearchParams { matches, ..self }),
    {
        let mut made = self;
        made.matches = matches;
        made
    }

    /// The search for `search`.
    pub fn search(self, search: &str) -> (made: Self)
        ensures
            made.search@ == search@,
            made == (SearchParams { search: made.search, ..self }),
    {
        let mut made = self;
        made.search = search.to_owned();
        made
    }
}

impl Default for SearchParams {
    /// Up to 50 hits for no name yet.
    fn default() -> (made: Self)
        ensures
            made.has_fixed_parts(),
            made.matches == 50,
            made.search@ == Seq::<char>::empty(),
    {
        SearchParams { output_format: "JSON", type_sf: "any", matches: 50, search: String::new() }
    }
}

/// Whether the answer typed at a yes-or-no prompt is a yes. Anything that is no
/// answer counts as a no.
pub fn confirmed(answer: &str) -> (yes: bool)
    ensures
        yes == (YesNo::meant_by(answer@) == Some(YesNo::Yes)),
{
    match YesNo::parse(answer) {
        Some(YesNo::Yes) => true,
        _ => false,
    }
}

/// The position in a list of `count` hits that the typed `number` picks. Hits are
/// numbered from 1; a number that no hit has picks nothing.
pub fn picked(count: usize, number: usize) -> (position: Option<usize>)
    ensures
        position == (if 1 <= number <= count {
            Some((number - 1) as usize)
        } else {
            None
        }),
{
    if 1 <= number && number <= count {
        Some(number - 1)
    } else {
        None
    }
}

/// Whether the stops already configured are to be dropped before a new one is
/// recorded: only where there are any, and the person at the prompt said yes.
pub fn drops_configured(configured: usize, answer: &str) -> (drops: bool)
    ensures
        drops == (configured > 0 && YesNo::meant_by(answer@) == Some(YesNo::Yes)),
{
    configured > 0 && confirmed(answer)
}

/// Records the stop with the id `point` as the last of the configured stops, which
/// are dropped first where `drop_configured` says so.
pub fn record_stop(departures: &mut Vec<DepartureConfig>, point: String, drop_configured: bool)
    ensures
        final(departures)@ == (if drop_configured {
            Seq::<DepartureConfig>::empty()
        } else {
            old(departures)@
        }).push(DepartureConfig { point }),
{
    if drop_configured {
        departures.clear();
    }
    departures.push(DepartureConfig { point });
}

} // verus!
