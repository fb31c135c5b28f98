//! Whether a layer is drawn, given what its configurations say about the current
//! tracking report.
use vstd::prelude::*;

verus! {

/// What one configuration of a layer says about the current frame: its `visible`
/// flag, and the outcome of its `invisible_when` and `visible_when` rules where it
/// has them (`Some(true)` when the rule's source is above its threshold).
#[derive(Debug, Clone, Copy, PartialEq, Eq, Structural)]
pub struct RuleOutcomes {
    pub visible: bool,
    pub invisible_when: Option<bool>,
    pub visible_when: Option<bool>,
}

impl RuleOutcomes {
    /// Whether this configuration lets its layer be drawn: its `visible` flag is on,
    /// its `invisible_when` rule (if any) does not fire, and its `visible_when` rule
    /// (if any) fires.
    pub open spec fn allows(self) -> bool {
        &&& self.visible
        &&& self.invisible_when != Some(true)
        &&& self.visible_when != Some(false)
    }
}

/// A layer is drawn when every one of its configurations allows it.
pub open spec fn all_allow(configs: Seq<RuleOutcomes>) -> bool {
    forall|i: int| 0 <= i < configs.len() ==> #[trigger] configs[i].allows()
}

/// Whether a layer with these configurations, applied from the root of the stack
/// down, is drawn for the current frame.
pub fn currently_visible(configs: &[RuleOutcomes]) -> (visible: bool)
    ensures
        visible == all_allow(configs@),
{
    let mut i: usize = 0;
    while i < configs.len()
        invariant
            i <= configs.len(),
            forall|j: int| 0 <= j < i ==> #[trigger] configs@[j].allows(),
        decreases configs.len() - i,
    {
        let config = configs[i];
        proof {
            assert(config == configs@[i as int]);
            if !config.allows() {
                assert(!all_allow(configs@));
            }
        }
        if !config.visible {
            return false;
        }
        if let Some(fired) = config.invisible_when {
            if fired {
                return false;
            }
        }
        if let Some(fired) = config.visible_when {
            if !fired {
                return false;
            }
        }
        i = i + 1;
    }
    true
}

/// Stacking configurations: a layer under the configurations `outer` followed by
/// `inner` is drawn exactly when both lists allow it.
pub proof fn lemma_all_allow_concat(outer: Seq<RuleOutcomes>, inner: Seq<RuleOutcomes>)
    ensures
        all_allow(outer + inner) == (all_allow(outer) && all_allow(inner)),
{
    let both = outer + inner;
    if all_allow(outer) && all_allow(inner) {
        assert forall|i: int| 0 <= i < both.len() implies #[trigger] both[i].allows() by {
            if i < outer.len() {
                assert(both[i] == outer[i]);
            } else {
                assert(both[i] == inner[i - outer.len()]);
            }
        }
    }
    if all_allow(both) {
        assert forall|i: int| 0 <= i < outer.len() implies #[trigger] outer[i].allows() by {
            assert(both[i] == outer[i]);
        }
        assert forall|i: int| 0 <= i < inner.len() implies #[trigger] inner[i].allows() by {
            assert(both[outer.len() + i] == inner[i]);
        }
    }
}

/// A configuration whose `visible` flag is off hides its layer, whatever the other
/// configurations and rules say.
pub proof fn lemma_hidden_flag_hides(configs: Seq<RuleOutcomes>, i: int)
    requires
        0 <= i < configs.len(),
        !configs[i].visible,
    ensures
        !all_allow(configs),
{
    assert(!configs[i].allows());
}

} // verus!
