//! The integer-valued parts of the generalized Morse wavelet family: the
//! normalization metric and the kind of coefficient a scalogram holds.

use vstd::prelude::*;

use crate::text::str_eq;

verus! {

/// Metric by which a wavelet is normalized.
#[derive(Debug, Clone, Copy, PartialEq, Eq, Structural)]
pub enum Normalization {
    /// Unit L1 norm (the usual convention).
    L1,
    /// Unit L2 norm.
    L2,
}

/// The type of the values computed for a scalogram.
#[derive(Debug, Clone, Copy, PartialEq, Eq, Structural)]
pub enum WaveCoefficientType {
    /// `|W(t,s)|`
    Magnitude,
    /// `|W(t,s)|^2`
    Power,
}

/// The metric that a name selects: `L1` or `L2`, written exactly so.
pub open spec fn metric_named(name: Seq<char>) -> Option<Normalization> {
    if name == "L1"@ {
        Some(Normalization::L1)
    } else if name == "L2"@ {
        Some(Normalization::L2)
    } else {
        None
    }
}

/// Exactly the names `L1` and `L2` select a metric, each its own.
pub proof fn lemma_metric_names(name: Seq<char>)
    ensures
        metric_named(name) == Some(Normalization::L1) <==> name == "L1"@,
        name != "L1"@ ==> (metric_named(name) == Some(Normalization::L2) <==> name == "L2"@),
        metric_named(name) is None <==> (name != "L1"@ && name != "L2"@),
{
}

impl Normalization {
    /// The metric named `name`, if it names one.
    pub fn from_name(name: &str) -> (r: Option<Normalization>)
        ensures
            r == metric_named(name@),
            name@ == "L1"@ ==> r == Some(Normalization::L1),
            name@ == "L2"@ ==> r == Some(Normalization::L2),
            (name@ != "L1"@ && name@ != "L2"@) ==> r is None,
    {
        proof {
            reveal_strlit("L1");
            reveal_strlit("L2");
            assert("L1"@[1] != "L2"@[1]);
        }
        if str_eq(name, "L1") {
            Some(Normalization::L1)
        } else if str_eq(name, "L2") {
            Some(Normalization::L2)
        } else {
            None
        }
    }

    /// The metric named `name`, and whether the name was recognized; an
    /// unknown name falls back to `L1`.
    pub fn from_name_or_default(name: &str) -> (r: (Normalization, bool))
        ensures
            r.1 == (metric_named(name@) is Some),
            r.0 == match metric_named(name@) {
                Some(m) => m,
                None => Normalization::L1,
            },
    {
        match Normalization::from_name(name) {
            Some(m) => (m, true),
            None => (Normalization::L1, false),
        }
    }
}

} // verus!
