use vstd::prelude::*;

verus! {

/// Who may take a landed arrow out of the ground.
///
/// The ordinals, in declaration order from zero, are the ones that saved games hold.
#[derive(Debug, Clone, Copy, PartialEq, Eq, Structural)]
pub enum Pickup {
    /// Nobody can pick the arrow up.
    Disallowed,
    /// Any player can pick the arrow up.
    Allowed,
    /// Only players with infinite materials can pick the arrow up.
    CreativeOnly,
}

impl Default for Pickup {
    fn default() -> (r: Self)
        ensures
            r == Pickup::Disallowed,
    {
        Pickup::Disallowed
    }
}

impl Pickup {
    /// The number that stands for a rule in saved games.
    pub open spec fn spec_ordinal(self) -> i8 {
        match self {
            Pickup::Disallowed => 0,
            Pickup::Allowed => 1,
            Pickup::CreativeOnly => 2,
        }
    }

    /// The rule that a saved number stands for; numbers without a rule mean `Disallowed`.
    pub open spec fn of_ordinal(value: i8) -> Self {
        if value == 1 {
            Pickup::Allowed
        } else if value == 2 {
            Pickup::CreativeOnly
        } else {
            Pickup::Disallowed
        }
    }

    /// The number that stands for this rule in saved games.
    pub fn ordinal(self) -> (r: i8)
        ensures
            r == self.spec_ordinal(),
    {
        match self {
            Pickup::Disallowed => 0,
            Pickup::Allowed => 1,
            Pickup::CreativeOnly => 2,
        }
    }

    /// Reading back the number of a rule gives that rule.
    pub proof fn law_ordinal_reads_back(self)
        ensures
            Pickup::of_ordinal(self.spec_ordinal()) == self,
    {
    }

    /// Every number outside `1..=2` reads as `Disallowed`.
    pub proof fn law_unknown_ordinal_disallows(value: i8)
        ensures
            Pickup::of_ordinal(value) == Pickup::Disallowed <==> !(1 <= value <= 2),
    {
    }
}

impl From<i8> for Pickup {
    fn from(value: i8) -> (r: Self) {
        match value {
            1 => Pickup::Allowed,
            2 => Pickup::CreativeOnly,
            _ => Pickup::Disallowed,
        }
    }
}

impl vstd::std_specs::convert::FromSpecImpl<i8> for Pickup {
    open spec fn obeys_from_spec() -> bool {
        true
    }

    open spec fn from_spec(value: i8) -> Self {
        Pickup::of_ordinal(value)
    }
}

} // verus!
