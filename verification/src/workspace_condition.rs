//! Wreck-frame condition derived from saved salvage progress.

use vstd::prelude::*;

verus! {

/// Condition as seen from one wreck section. The frame condition comes
/// from the saved site progress; the section condition also accounts for
/// targets already removed from this section.
#[derive(Clone, Copy, Debug, PartialEq, Eq, Structural)]
pub struct WorkspaceConditionStatus {
    pub frame_condition: i32,
    pub section_condition: i32,
    pub recovered_targets: usize,
    pub total_targets: usize,
    pub discovered: bool,
}

impl WorkspaceConditionStatus {
    pub fn unknown() -> (r: Self)
        ensures
            r == (WorkspaceConditionStatus {
                frame_condition: 0,
                section_condition: 0,
                recovered_targets: 0,
                total_targets: 0,
                discovered: false,
            }),
    {
        WorkspaceConditionStatus {
            frame_condition: 0,
            section_condition: 0,
            recovered_targets: 0,
            total_targets: 0,
            discovered: false,
        }
    }

    pub open spec fn label_spec(self) -> Seq<char> {
        if !self.discovered {
            "UNMAPPED"@
        } else if self.section_condition <= 30 {
            "CRITICAL"@
        } else if self.recovered_targets > 0 {
            "STRESSED"@
        } else {
            "STABLE"@
        }
    }

    pub fn label(self) -> (r: &'static str)
        ensures
            r@ == self.label_spec(),
    {
        if !self.discovered {
            "UNMAPPED"
        } else if self.section_condition <= 30 {
            "CRITICAL"
        } else if self.recovered_targets > 0 {
            "STRESSED"
        } else {
            "STABLE"
        }
    }

    /// Structural stress: how far the section is below full condition.
    pub fn structural_stress(self) -> (r: i32)
        requires
            self.section_condition > i32::MIN + 100,
        ensures
            r == crate::engine::clamp(100 - self.section_condition, 0, 100),
    {
        crate::engine::clamp_i32(100 - self.section_condition, 0, 100)
    }
}

} // verus!
