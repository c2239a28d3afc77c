//! Operator-selected drone behavior for the active salvage workspace.

use vstd::prelude::*;

verus! {

#[derive(Clone, Copy, Debug, PartialEq, Eq, Structural)]
pub enum DroneDirective {
    Standby,
    Survey,
    PullSupport,
}

impl DroneDirective {
    /// Pull support is what a fresh expedition starts with.
    pub fn default_directive() -> (r: Self)
        ensures
            r == DroneDirective::PullSupport,
    {
        DroneDirective::PullSupport
    }

    pub open spec fn next_spec(self) -> Self {
        match self {
            DroneDirective::Standby => DroneDirective::Survey,
            DroneDirective::Survey => DroneDirective::PullSupport,
            DroneDirective::PullSupport => DroneDirective::Standby,
        }
    }

    pub fn next(self) -> (r: Self)
        ensures
            r == self.next_spec(),
    {
        match self {
            DroneDirective::Standby => DroneDirective::Survey,
            DroneDirective::Survey => DroneDirective::PullSupport,
            DroneDirective::PullSupport => DroneDirective::Standby,
        }
    }

    pub open spec fn short_label_spec(self) -> Seq<char> {
        match self {
            DroneDirective::Standby => "STANDBY"@,
            DroneDirective::Survey => "SURVEY"@,
            DroneDirective::PullSupport => "PULL"@,
        }
    }

    pub fn short_label(self) -> (r: &'static str)
        ensures
            r@ == self.short_label_spec(),
    {
        match self {
            DroneDirective::Standby => "STANDBY",
            DroneDirective::Survey => "SURVEY",
            DroneDirective::PullSupport => "PULL",
        }
    }

    pub open spec fn label_spec(self) -> Seq<char> {
        match self {
            DroneDirective::Standby => "DRONES STANDBY"@,
            DroneDirective::Survey => "SURVEY NET"@,
            DroneDirective::PullSupport => "PULL SUPPORT"@,
        }
    }

    pub fn label(self) -> (r: &'static str)
        ensures
            r@ == self.label_spec(),
    {
        match self {
            DroneDirective::Standby => "DRONES STANDBY",
            DroneDirective::Survey => "SURVEY NET",
            DroneDirective::PullSupport => "PULL SUPPORT",
        }
    }

    pub open spec fn description_spec(self) -> Seq<char> {
        match self {
            DroneDirective::Standby => "Drones recalled; the workboat carries the full field load."@,
            DroneDirective::Survey => "Drones widen the hazard read and trade speed for safer pulls."@,
            DroneDirective::PullSupport => "Drones brace the line and shorten active extraction time."@,
        }
    }

    pub fn description(self) -> (r: &'static str)
        ensures
            r@ == self.description_spec(),
    {
        match self {
            DroneDirective::Standby => "Drones recalled; the workboat carries the full field load.",
            DroneDirective::Survey => "Drones widen the hazard read and trade speed for safer pulls.",
            DroneDirective::PullSupport => "Drones brace the line and shorten active extraction time.",
        }
    }

    pub open spec fn deploys_drones_spec(self) -> bool {
        !(self is Standby)
    }

    pub fn deploys_drones(self) -> (r: bool)
        ensures
            r == self.deploys_drones_spec(),
    {
        !matches!(self, DroneDirective::Standby)
    }

    pub open spec fn effective_support_spec(self, module_support: int) -> int {
        match self {
            DroneDirective::Standby => 0,
            DroneDirective::Survey => crate::engine::clamp(module_support + 1, 0, 3),
            DroneDirective::PullSupport => crate::engine::clamp(module_support, 0, 3),
        }
    }

    /// Field support the drones give for the modules' drone capacity.
    pub fn effective_support(self, module_support: i32) -> (r: i32)
        requires
            self == DroneDirective::Survey ==> module_support < i32::MAX,
        ensures
            r == self.effective_support_spec(module_support as int),
            0 <= r <= 3,
    {
        match self {
            DroneDirective::Standby => 0,
            DroneDirective::Survey => crate::engine::clamp_i32(module_support + 1, 0, 3),
            DroneDirective::PullSupport => crate::engine::clamp_i32(module_support, 0, 3),
        }
    }
}

} // verus!
