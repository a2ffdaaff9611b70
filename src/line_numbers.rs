//! Line-number display modes.
use vstd::prelude::*;

verus! {

/// Whether line numbers are shown next to each display line.
///
/// `AlwaysOn` and `AlwaysOff` are sticky: the runtime toggle (negation)
/// leaves them as they are, while `Enabled` and `Disabled` flip.
#[derive(Clone, Copy, Debug, PartialEq, Eq, Structural)]
pub enum LineNumbers {
    AlwaysOn,
    Enabled,
    Disabled,
    AlwaysOff,
}

impl LineNumbers {
    /// True when numbers are drawn in this mode.
    pub open spec fn spec_is_on(self) -> bool {
        self is AlwaysOn || self is Enabled
    }

    /// The mode after a runtime toggle.
    pub open spec fn spec_negate(self) -> LineNumbers {
        match self {
            LineNumbers::Enabled => LineNumbers::Disabled,
            LineNumbers::Disabled => LineNumbers::Enabled,
            other => other,
        }
    }

    /// Returns true when numbers are drawn in this mode.
    pub fn is_on(self) -> (r: bool)
        ensures
            r == self.spec_is_on(),
    {
        match self {
            LineNumbers::AlwaysOn | LineNumbers::Enabled => true,
            _ => false,
        }
    }

    /// The mode after a runtime toggle: `Enabled` and `Disabled` swap, the
    /// sticky modes stay.
    pub fn negate(self) -> (r: LineNumbers)
        ensures
            r == self.spec_negate(),
    {
        match self {
            LineNumbers::Enabled => LineNumbers::Disabled,
            LineNumbers::Disabled => LineNumbers::Enabled,
            other => other,
        }
    }

    /// Negation fixes the sticky modes and swaps the other two; applied
    /// twice it is the identity, and it never changes whether the mode is sticky.
    pub proof fn lemma_negate(self)
        ensures
            LineNumbers::AlwaysOn.spec_negate() == LineNumbers::AlwaysOn,
            LineNumbers::AlwaysOff.spec_negate() == LineNumbers::AlwaysOff,
            LineNumbers::Enabled.spec_negate() == LineNumbers::Disabled,
            LineNumbers::Disabled.spec_negate() == LineNumbers::Enabled,
            self.spec_negate().spec_negate() == self,
    {
    }
}

impl core::ops::Not for LineNumbers {
    type Output = LineNumbers;

    fn not(self) -> (r: LineNumbers)
        ensures
            r == self.spec_negate(),
    {
        self.negate()
    }
}

impl vstd::std_specs::ops::NotSpecImpl for LineNumbers {
    open spec fn obeys_not_spec() -> bool {
        true
    }

    open spec fn not_req(self) -> bool {
        true
    }

    open spec fn not_spec(self) -> LineNumbers {
        self.spec_negate()
    }
}

} // verus!
