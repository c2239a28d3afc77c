//! Field records kept per wreck, and the target intelligence scans gather.

use crate::data::SalvageObjectData;
use crate::drone_directive::DroneDirective;
use vstd::prelude::*;

verus! {

#[derive(Clone, Copy, Debug, PartialEq, Eq, Structural)]
pub enum WorkspaceLogEvent {
    Departed,
    EnteredSection,
    SectionScanned,
    SectionCleared,
    DronesDeployed,
    DronesRecalled,
    DroneDirectiveChanged,
    PowerCycled,
    FieldPowerCellUsed,
    TargetStabilized,
    ExtractionStarted,
    ExtractionCancelled,
    TargetRecovered,
    TargetLost,
}

impl WorkspaceLogEvent {
    pub open spec fn label_spec(self) -> Seq<char> {
        match self {
            WorkspaceLogEvent::Departed => "DEPARTED"@,
            WorkspaceLogEvent::EnteredSection => "ENTERED"@,
            WorkspaceLogEvent::SectionScanned => "SCANNED"@,
            WorkspaceLogEvent::SectionCleared => "SECTION CLEARED"@,
            WorkspaceLogEvent::DronesDeployed => "DRONES DEPLOYED"@,
            WorkspaceLogEvent::DronesRecalled => "DRONES RECALLED"@,
            WorkspaceLogEvent::DroneDirectiveChanged => "DRONE DIRECTIVE"@,
            WorkspaceLogEvent::PowerCycled => "POWER CYCLED"@,
            WorkspaceLogEvent::FieldPowerCellUsed => "POWER CELL"@,
            WorkspaceLogEvent::TargetStabilized => "STABILIZED"@,
            WorkspaceLogEvent::ExtractionStarted => "PULL STARTED"@,
            WorkspaceLogEvent::ExtractionCancelled => "PULL CANCELLED"@,
            WorkspaceLogEvent::TargetRecovered => "RECOVERED"@,
            WorkspaceLogEvent::TargetLost => "LOST"@,
        }
    }

    pub fn label(self) -> (r: &'static str)
        ensures
            r@ == self.label_spec(),
    {
        match self {
            WorkspaceLogEvent::Departed => "DEPARTED",
            WorkspaceLogEvent::EnteredSection => "ENTERED",
            WorkspaceLogEvent::SectionScanned => "SCANNED",
            WorkspaceLogEvent::SectionCleared => "SECTION CLEARED",
            WorkspaceLogEvent::DronesDeployed => "DRONES DEPLOYED",
            WorkspaceLogEvent::DronesRecalled => "DRONES RECALLED",
            WorkspaceLogEvent::DroneDirectiveChanged => "DRONE DIRECTIVE",
            WorkspaceLogEvent::PowerCycled => "POWER CYCLED",
            WorkspaceLogEvent::FieldPowerCellUsed => "POWER CELL",
            WorkspaceLogEvent::TargetStabilized => "STABILIZED",
            WorkspaceLogEvent::ExtractionStarted => "PULL STARTED",
            WorkspaceLogEvent::ExtractionCancelled => "PULL CANCELLED",
            WorkspaceLogEvent::TargetRecovered => "RECOVERED",
            WorkspaceLogEvent::TargetLost => "LOST",
        }
    }

    pub open spec fn is_target_event_spec(self) -> bool {
        self is TargetStabilized || self is ExtractionStarted || self is ExtractionCancelled
            || self is TargetRecovered || self is TargetLost
    }

    /// Events that concern one target and therefore carry its identifier.
    pub fn is_target_event(self) -> (r: bool)
        ensures
            r == self.is_target_event_spec(),
    {
        matches!(
            self,
            WorkspaceLogEvent::TargetStabilized | WorkspaceLogEvent::ExtractionStarted
                | WorkspaceLogEvent::ExtractionCancelled | WorkspaceLogEvent::TargetRecovered
                | WorkspaceLogEvent::TargetLost
        )
    }
}

#[derive(Clone, Debug, PartialEq, Eq)]
pub struct WorkspaceLogEntry {
    pub sequence: u32,
    pub event: WorkspaceLogEvent,
    pub section_id: String,
    pub target_id: Option<String>,
    pub drone_directive: Option<DroneDirective>,
}

pub open spec fn opt_view(o: Option<String>) -> Option<Seq<char>> {
    match o {
        Some(s) => Some(s@),
        None => None,
    }
}

pub open spec fn opt_str_view(o: Option<&str>) -> Option<Seq<char>> {
    match o {
        Some(s) => Some(s@),
        None => None,
    }
}

pub fn copy_opt(o: &Option<String>) -> (r: Option<String>)
    ensures
        r == *o,
{
    match o {
        Some(s) => Some(s.clone()),
        None => None,
    }
}

pub fn own_opt(o: Option<&str>) -> (r: Option<String>)
    ensures
        opt_view(r) == opt_str_view(o),
{
    match o {
        Some(s) => Some(s.to_owned()),
        None => None,
    }
}

/// Whether `e` is the entry filed with these values.
pub open spec fn entry_is(
    e: WorkspaceLogEntry,
    sequence: int,
    event: WorkspaceLogEvent,
    section: Option<Seq<char>>,
    target: Option<Seq<char>>,
) -> bool {
    &&& e.sequence == sequence
    &&& e.event == event
    &&& e.section_id@ == (match section {
        Some(s) => s,
        None => Seq::<char>::empty(),
    })
    &&& opt_view(e.target_id) == target
    &&& e.drone_directive is None
}

impl WorkspaceLogEntry {
    /// An entry; a missing section is recorded as the empty section.
    pub fn new(
        sequence: u32,
        event: WorkspaceLogEvent,
        section_id: Option<&str>,
        target_id: Option<&str>,
    ) -> (r: Self)
        ensures
            r.sequence == sequence,
            r.event == event,
            r.section_id@ == (match section_id {
                Some(s) => s@,
                None => Seq::<char>::empty(),
            }),
            opt_view(r.target_id) == opt_str_view(target_id),
            r.drone_directive is None,
    {
        let section = match section_id {
            Some(s) => s.to_owned(),
            None => String::new(),
        };
        WorkspaceLogEntry {
            sequence,
            event,
            section_id: section,
            target_id: own_opt(target_id),
            drone_directive: None,
        }
    }

    /// An entry that files the drone directive in force.
    pub fn with_drone_directive(
        sequence: u32,
        event: WorkspaceLogEvent,
        section_id: Option<&str>,
        directive: DroneDirective,
    ) -> (r: Self)
        ensures
            r.sequence == sequence,
            r.event == event,
            r.section_id@ == (match section_id {
                Some(s) => s@,
                None => Seq::<char>::empty(),
            }),
            r.target_id is None,
            r.drone_directive == Some(directive),
    {
        let section = match section_id {
            Some(s) => s.to_owned(),
            None => String::new(),
        };
        WorkspaceLogEntry {
            sequence,
            event,
            section_id: section,
            target_id: None,
            drone_directive: Some(directive),
        }
    }

    pub fn duplicate(&self) -> (r: Self)
        ensures
            r == *self,
    {
        WorkspaceLogEntry {
            sequence: self.sequence,
            event: self.event,
            section_id: self.section_id.clone(),
            target_id: copy_opt(&self.target_id),
            drone_directive: self.drone_directive,
        }
    }
}

/// What a scan learned about one target. Mass is kept in tenths of a ton.
#[derive(Clone, Debug, PartialEq, Eq)]
pub struct TargetSurveyNote {
    pub target_id: String,
    pub section_id: String,
    pub scan_count: u32,
    pub hazard: Option<String>,
    pub transfer_mode: String,
    pub integrity: i32,
    pub extraction_difficulty: i32,
    pub mass_tenths: i32,
}

impl TargetSurveyNote {
    /// A first note on a target, taken from its authored data.
    pub fn from_target(target_id: &str, section_id: &str, target: &SalvageObjectData) -> (r: Self)
        ensures
            r.target_id@ == target_id@,
            r.section_id@ == section_id@,
            r.scan_count == 1,
            r.hazard == target.hazard,
            r.transfer_mode == target.transfer_mode,
            r.integrity == target.integrity,
            r.extraction_difficulty == target.extraction_difficulty,
            r.mass_tenths == target.mass_tenths,
    {
        TargetSurveyNote {
            target_id: target_id.to_owned(),
            section_id: section_id.to_owned(),
            scan_count: 1,
            hazard: copy_opt(&target.hazard),
            transfer_mode: target.transfer_mode.clone(),
            integrity: target.integrity,
            extraction_difficulty: target.extraction_difficulty,
            mass_tenths: target.mass_tenths,
        }
    }

    pub fn duplicate(&self) -> (r: Self)
        ensures
            r == *self,
    {
        TargetSurveyNote {
            target_id: self.target_id.clone(),
            section_id: self.section_id.clone(),
            scan_count: self.scan_count,
            hazard: copy_opt(&self.hazard),
            transfer_mode: self.transfer_mode.clone(),
            integrity: self.integrity,
            extraction_difficulty: self.extraction_difficulty,
            mass_tenths: self.mass_tenths,
        }
    }
}

} // verus!
