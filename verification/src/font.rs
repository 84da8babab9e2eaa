//! The font metrics that place an underline and an undercurl.
use vstd::prelude::*;
use crate::fixed::SPAN_MAX;

verus! {

/// The metrics of the font in use, each in pixels.
#[derive(Debug, Clone, Copy)]
pub struct Metrics {
    descent: i64,
    underline_position: i64,
    underline_thickness: i64,
}

/// What a [`Metrics`] stands for.
pub struct MetricsModel {
    pub descent: int,
    pub underline_position: int,
    pub underline_thickness: int,
}

impl MetricsModel {
    /// No metric is larger in magnitude than [`SPAN_MAX`].
    pub open spec fn valid(self) -> bool {
        &&& -SPAN_MAX <= self.descent <= SPAN_MAX
        &&& -SPAN_MAX <= self.underline_position <= SPAN_MAX
        &&& -SPAN_MAX <= self.underline_thickness <= SPAN_MAX
    }
}

impl View for Metrics {
    type V = MetricsModel;

    closed spec fn view(&self) -> MetricsModel {
        MetricsModel {
            descent: self.descent as int,
            underline_position: self.underline_position as int,
            underline_thickness: self.underline_thickness as int,
        }
    }
}

impl Metrics {
    #[verifier::type_invariant]
    spec fn inv(self) -> bool {
        self@.valid()
    }

    /// The metrics with these values, if each is within [`SPAN_MAX`] of zero.
    pub fn new(descent: i64, underline_position: i64, underline_thickness: i64) -> (r: Option<
        Metrics,
    >)
        ensures
            r is Some <==> (MetricsModel {
                descent: descent as int,
                underline_position: underline_position as int,
                underline_thickness: underline_thickness as int,
            }).valid(),
            r matches Some(m) ==> m@ == (MetricsModel {
                descent: descent as int,
                underline_position: underline_position as int,
                underline_thickness: underline_thickness as int,
            }),
    {
        if -SPAN_MAX <= descent && descent <= SPAN_MAX && -SPAN_MAX <= underline_position
            && underline_position <= SPAN_MAX && -SPAN_MAX <= underline_thickness
            && underline_thickness <= SPAN_MAX {
            Some(Metrics { descent, underline_position, underline_thickness })
        } else {
            None
        }
    }

    /// How far the lowest glyph reaches below the baseline.
    pub fn descent(&self) -> (v: i64)
        ensures
            v == self@.descent,
            self@.valid(),
    {
        proof {
            use_type_invariant(self);
        }
        self.descent
    }

    /// Where the underline sits, measured from the baseline.
    pub fn underline_position(&self) -> (v: i64)
        ensures
            v == self@.underline_position,
            self@.valid(),
    {
        proof {
            use_type_invariant(self);
        }
        self.underline_position
    }

    /// How thick the underline is.
    pub fn underline_thickness(&self) -> (v: i64)
        ensures
            v == self@.underline_thickness,
            self@.valid(),
    {
        proof {
            use_type_invariant(self);
        }
        self.underline_thickness
    }
}

} // verus!
