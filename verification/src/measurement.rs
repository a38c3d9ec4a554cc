//! One sensor sample.

use vstd::prelude::*;
use vstd::string::StringExecFns;
use crate::text::spec_tenths;
use crate::text::tenths_string;

verus! {

/// One particulate-matter sample: the PM2.5 and PM10 concentrations,
/// each in integer tenths of a microgram per cubic metre.
///
/// A `Measurement` has no identity beyond its value; every new sample
/// fully replaces the prior one.
#[derive(Clone, Copy, PartialEq, Eq, Structural, Debug)]
pub struct Measurement {
    /// PM2.5 concentration, in tenths.
    pub pm25: u16,
    /// PM10 concentration, in tenths.
    pub pm10: u16,
}

/// The textual form of a sample, as the status page shows it:
/// both concentrations divided by ten.
pub open spec fn spec_render(m: Measurement) -> Seq<char> {
    "PM10="@ + spec_tenths(m.pm10 as nat) + " PM25="@ + spec_tenths(m.pm25 as nat)
}

impl Measurement {
    /// A sample from the two concentrations, each in tenths.
    pub fn new(pm25: u16, pm10: u16) -> (m: Measurement)
        ensures
            m.pm25 == pm25,
            m.pm10 == pm10,
    {
        Measurement { pm25, pm10 }
    }

    /// Renders the sample for the status page.
    pub fn render(&self) -> (r: String)
        ensures
            r@ == spec_render(*self),
    {
        let mut r = String::from_str("PM10=");
        let t10 = tenths_string(self.pm10);
        r.append(t10.as_str());
        r.append(" PM25=");
        let t25 = tenths_string(self.pm25);
        r.append(t25.as_str());
        proof {
            assert(r@ =~= spec_render(*self));
        }
        r
    }
}

} // verus!
