//! Minimum-bandwidth tiers and the classifier that the predicates share.

use vstd::prelude::*;

verus! {

/// A configured minimum-bandwidth requirement, by what it admits.
#[derive(Clone, Copy, Debug, PartialEq, Eq, Structural)]
pub enum BandwidthTier {
    /// One of the fast codes `O`, `P` or `X`: admits exactly the fast routers.
    Fast,
    /// Any other code: admits nobody.
    Unrecognized,
}

/// Whether a tier code is one of the recognised fast codes.
pub open spec fn is_fast_tier_code(code: Seq<char>) -> bool {
    code == seq!['O'] || code == seq!['P'] || code == seq!['X']
}

/// The tier that a configured code stands for.
pub open spec fn tier_of(code: Seq<char>) -> BandwidthTier {
    if is_fast_tier_code(code) {
        BandwidthTier::Fast
    } else {
        BandwidthTier::Unrecognized
    }
}

impl BandwidthTier {
    /// Whether a router whose fast classification is `fast` meets the tier.
    pub open spec fn admits_spec(self, fast: bool) -> bool {
        match self {
            BandwidthTier::Fast => fast,
            BandwidthTier::Unrecognized => false,
        }
    }

    /// Classify a configured tier code.
    pub fn from_code(code: &str) -> (r: Self)
        ensures
            r == tier_of(code@),
    {
        if code.unicode_len() == 1 {
            let c = code.get_char(0);
            if c == 'O' || c == 'P' || c == 'X' {
                assert(code@ =~= seq![c]);
                BandwidthTier::Fast
            } else {
                assert(code@[0] == c);
                BandwidthTier::Unrecognized
            }
        } else {
            BandwidthTier::Unrecognized
        }
    }

    /// Whether a router whose fast classification is `fast` meets the tier.
    pub fn admits(&self, fast: bool) -> (r: bool)
        ensures
            r == self.admits_spec(fast),
    {
        match self {
            BandwidthTier::Fast => fast,
            BandwidthTier::Unrecognized => false,
        }
    }
}

} // verus!
