//! Conversion of raw converter codes to millivolts.
use vstd::prelude::*;

verus! {

/// The value, in millivolts, of the internal reference that the calibration
/// conversion reads.
pub const KNOWN_REFERENCE_VALUE: u32 = 1200;

/// The largest value a physical sample can take on the wire.
pub const PHYSICAL_MAX: u16 = 0xFFFF;

/// The physical value of `raw` against the reference reading `reference`:
/// `raw * KNOWN_REFERENCE_VALUE / reference`, rounded down and saturated to
/// the sample width.
pub open spec fn physical_value(raw: int, reference: int) -> int {
    let q = raw * (KNOWN_REFERENCE_VALUE as int) / reference;
    if q > PHYSICAL_MAX as int {
        PHYSICAL_MAX as int
    } else {
        q
    }
}

/// Maps a raw code to millivolts, given the reading of the known reference.
pub fn to_physical(raw: u16, reference: u16) -> (r: u16)
    requires
        reference > 0,
    ensures
        r as int == physical_value(raw as int, reference as int),
{
    let product: u32 = raw as u32 * KNOWN_REFERENCE_VALUE;
    let q: u32 = product / reference as u32;
    if q > PHYSICAL_MAX as u32 {
        PHYSICAL_MAX
    } else {
        q as u16
    }
}

/// The physical value grows with the raw code.
pub proof fn lemma_to_physical_monotonic(r1: u16, r2: u16, reference: u16)
    requires
        reference > 0,
        r1 <= r2,
    ensures
        physical_value(r1 as int, reference as int) <= physical_value(r2 as int, reference as int),
{
    let k = KNOWN_REFERENCE_VALUE as int;
    assert(r1 as int * k <= r2 as int * k) by (nonlinear_arith)
        requires r1 <= r2, k >= 0;
    assert((r1 as int * k) / (reference as int) <= (r2 as int * k) / (reference as int))
        by (nonlinear_arith)
        requires r1 as int * k <= r2 as int * k, reference > 0;
}

/// Where the quotient fits the sample width, the physical value is exactly
/// `raw * KNOWN_REFERENCE_VALUE / reference`, rounded down.
pub proof fn lemma_to_physical_exact(raw: u16, reference: u16)
    requires
        reference > 0,
        raw as int * KNOWN_REFERENCE_VALUE as int / reference as int <= PHYSICAL_MAX as int,
    ensures
        physical_value(raw as int, reference as int)
            == raw as int * KNOWN_REFERENCE_VALUE as int / reference as int,
{
}

/// The scale factor of one session: the reading that the converter gave of
/// the known reference.
#[derive(Clone, Copy, Debug)]
pub struct CalibrationReference {
    reading: u16,
}

impl CalibrationReference {
    /// A reference can only scale when its reading is not zero.
    pub open spec fn wf(&self) -> bool {
        self.view_reading() > 0
    }

    /// The reading of the known reference.
    pub closed spec fn view_reading(&self) -> u16 {
        self.reading
    }

    /// Fixes the scale factor from one conversion of the known reference.
    /// A zero reading cannot scale and gives `None`.
    pub fn from_reading(reading: u16) -> (r: Option<CalibrationReference>)
        ensures
            reading == 0 <==> r.is_none(),
            r matches Some(c) ==> c.wf() && c.view_reading() == reading,
    {
        if reading == 0 {
            None
        } else {
            Some(CalibrationReference { reading })
        }
    }

    /// The reading this reference was made from.
    pub fn reading(&self) -> (r: u16)
        ensures
            r == self.view_reading(),
    {
        self.reading
    }

    /// Maps a raw code to millivolts with this reference.
    pub fn to_physical(&self, raw: u16) -> (r: u16)
        requires
            self.wf(),
        ensures
            r as int == physical_value(raw as int, self.view_reading() as int),
    {
        to_physical(raw, self.reading)
    }
}

} // verus!
