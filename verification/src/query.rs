//! The question put to the transit source for the departures of a stop.

use vstd::prelude::*;
use vstd::string::StringExecFns;

verus! {

/// A stop whose departures the board shows, by the source's id for it.
#[derive(Debug, Clone)]
pub struct DepartureConfig {
    pub point: String,
}

/// The parameters of a departure request.
#[derive(Debug, Clone)]
pub struct Query {
    pub output_format: &'static str,
    pub mode: &'static str,
    pub include_proximate: u8,
    pub stop_id: String,
    pub limit: usize,
    pub depart_or_arrive: &'static str,
    pub type_dm: &'static str,
}

/// The ids of the stops, written one after the other.
pub open spec fn points_in_a_row(stops: Seq<DepartureConfig>) -> Seq<char>
    decreases stops.len(),
{
    if stops.len() == 0 {
        Seq::empty()
    } else {
        points_in_a_row(stops.drop_last()) + stops.last().point@
    }
}

impl Query {
    /// Whether the parameters that no builder changes have their fixed values: JSON
    /// output, direct mode, departures, any kind of stop.
    pub open spec fn has_fixed_parts(&self) -> bool {
        &&& self.output_format@ == "JSON"@
        &&& self.mode@ == "direct"@
        &&& self.depart_or_arrive@ == "dep"@
        &&& self.type_dm@ == "any"@
    }

    /// The query with `limit` as the largest number of departures asked for.
    pub fn with_limit(self, limit: usize) -> (made: Self)
        ensures
            made == (Query { limit, ..self }),
    {
        let mut made = self;
        made.limit = limit;
        made
    }

    /// The query for the stop with the id `stop`.
    pub fn with_stop(self, stop: &str) -> (made: Self)
        ensures
            made.stop_id@ == stop@,
            made == (Query { stop_id: made.stop_id, ..self }),
    {
        let mut made = self;
        made.stop_id = stop.to_owned();
        made
    }
}

impl Default for Query {
    /// Up to 50 departures of no stop yet, stops close by included.
    fn default() -> (made: Self)
        ensures
            made.has_fixed_parts(),
            made.include_proximate == 1,
            made.stop_id@ == Seq::<char>::empty(),
            made.limit == 50,
    {
        Query {
            output_format: "JSON",
            mode: "direct",
            include_proximate: 1,
            stop_id: String::new(),
            limit: 50,
            depart_or_arrive: "dep",
            type_dm: "any",
        }
    }
}

impl From<&Vec<DepartureConfig>> for Query {
    /// The query for all of `value` at once: their ids in a row, stops close by left
    /// out, the rest as by default.
    fn from(value: &Vec<DepartureConfig>) -> (made: Self)
        ensures
            made.has_fixed_parts(),
            made.include_proximate == 0,
            made.stop_id@ == points_in_a_row(value@),
            made.limit == 50,
    {
        let mut stop_id = String::new();
        let mut i: usize = 0;
        while i < value.len()
            invariant
                i <= value@.len(),
                stop_id@ == points_in_a_row(value@.take(i as int)),
            decreases value@.len() - i,
        {
            proof {
                assert(value@.take(i + 1).drop_last() =~= value@.take(i as int));
            }
            stop_id.append(value[i].point.as_str());
            i += 1;
        }
        proof {
            assert(value@.take(value@.len() as int) =~= value@);
        }
        let made = Query::default();
        Query { stop_id, include_proximate: 0, ..made }
    }
}

impl vstd::std_specs::convert::FromSpecImpl<&Vec<DepartureConfig>> for Query {
    /// Two strings of one text are not one value to Verus, so no spec function can
    /// name the query made; the contract stands at `from` itself.
    open spec fn obeys_from_spec() -> bool {
        false
    }

    open spec fn from_spec(value: &Vec<DepartureConfig>) -> Query {
        arbitrary()
    }
}

} // verus!
