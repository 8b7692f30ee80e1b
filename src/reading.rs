use vstd::prelude::*;

use crate::scale::{derived_order, derived_scales, Scale};

verus! {

/// A temperature value together with the scale it is expressed in. The value
/// type is the caller's: any number type, or the value's display text.
#[derive(Clone, Copy, Debug, PartialEq)]
pub struct Reading<V> {
    pub scale: Scale,
    pub value: V,
}

/// One reading expressed in all three scales: the reading itself first, then
/// the two other scales in the order that `derived_scales` gives.
#[derive(Clone, Copy, Debug, PartialEq)]
pub struct Conversion<V> {
    pub original: Reading<V>,
    pub first: Reading<V>,
    pub second: Reading<V>,
}

impl<V> Conversion<V> {
    /// Whether the three readings stand in report order for the original's
    /// scale.
    pub open spec fn well_ordered(self) -> bool {
        &&& self.first.scale == derived_order(self.original.scale).0
        &&& self.second.scale == derived_order(self.original.scale).1
    }

    /// Builds the conversion of `original`, given its value in the first and in
    /// the second derived scale. The original reading comes back unchanged as
    /// the first element.
    pub fn assemble(original: Reading<V>, first_value: V, second_value: V) -> (r: Conversion<V>)
        ensures
            r.original == original,
            r.first == (Reading { scale: derived_order(original.scale).0, value: first_value }),
            r.second == (Reading { scale: derived_order(original.scale).1, value: second_value }),
            r.well_ordered(),
    {
        let (a, b) = derived_scales(original.scale);
        Conversion {
            original,
            first: Reading { scale: a, value: first_value },
            second: Reading { scale: b, value: second_value },
        }
    }
}

} // verus!
