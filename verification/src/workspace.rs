//! Transfer modes that decide where a recovered target goes, and the
//! extraction phases the operator sees.

use crate::data::{keyed, GameData, SalvageObjectData, SiteData, WreckSectionData};
use crate::session::{logged, GameSession, SiteProgress, LOG_LIMIT};
use crate::text::views;
use crate::workspace_condition::WorkspaceConditionStatus;
use crate::workspace_records::{opt_str_view, WorkspaceLogEntry, WorkspaceLogEvent};
use crate::layout::GridPosition;
use vstd::prelude::*;

verus! {

/// A committed hold destination for a target being pulled.
#[derive(Clone, Debug)]
pub struct WorkspaceTransfer {
    pub target_id: String,
    pub position: GridPosition,
    pub rotation: u8,
}

impl WorkspaceTransfer {
    pub fn duplicate(&self) -> (r: Self)
        ensures
            r == *self,
    {
        WorkspaceTransfer {
            target_id: self.target_id.clone(),
            position: self.position,
            rotation: self.rotation,
        }
    }
}

pub const WORKSPACE_STABILIZATION_ENERGY_COST: i32 = 2;

#[derive(Clone, Copy, Debug, PartialEq, Eq, Structural)]
pub enum ExtractionPhase {
    Alignment,
    Connection,
    Strain,
    Separation,
    Retrieval,
    Capture,
}

#[derive(Clone, Copy, Debug, PartialEq, Eq, Structural)]
pub enum TransferMode {
    InternalCargo,
    ExternalClamp,
    Tow,
}

impl TransferMode {
    pub open spec fn from_value_spec(value: Seq<char>) -> Self {
        if value == "external_clamp"@ {
            TransferMode::ExternalClamp
        } else if value == "tow"@ {
            TransferMode::Tow
        } else {
            TransferMode::InternalCargo
        }
    }

    /// The mode an authored transfer value names; anything unknown loads
    /// into the internal cargo hold.
    pub fn from_value(value: &str) -> (r: Self)
        ensures
            r == Self::from_value_spec(value@),
    {
        if crate::text::same_text(value, "external_clamp") {
            TransferMode::ExternalClamp
        } else if crate::text::same_text(value, "tow") {
            TransferMode::Tow
        } else {
            TransferMode::InternalCargo
        }
    }

    pub open spec fn from_target_spec(target: SalvageObjectData) -> Self {
        Self::from_value_spec(target.transfer_mode@)
    }

    pub fn from_target(target: &SalvageObjectData) -> (r: Self)
        ensures
            r == Self::from_target_spec(*target),
    {
        Self::from_value(target.transfer_mode.as_str())
    }

    pub open spec fn short_label_spec(self) -> Seq<char> {
        match self {
            TransferMode::InternalCargo => "CARGO"@,
            TransferMode::ExternalClamp => "CLAMP"@,
            TransferMode::Tow => "TOW"@,
        }
    }

    pub fn short_label(self) -> (r: &'static str)
        ensures
            r@ == self.short_label_spec(),
    {
        match self {
            TransferMode::InternalCargo => "CARGO",
            TransferMode::ExternalClamp => "CLAMP",
            TransferMode::Tow => "TOW",
        }
    }

    pub open spec fn uses_external_rig_spec(self) -> bool {
        !(self is InternalCargo)
    }

    /// Clamp and tow loads ride outside the hull on the external rig.
    pub fn uses_external_rig(self) -> (r: bool)
        ensures
            r == self.uses_external_rig_spec(),
    {
        !matches!(self, TransferMode::InternalCargo)
    }

    pub open spec fn destination_label_spec(self) -> Seq<char> {
        match self {
            TransferMode::InternalCargo => "SALVAGE HOLD"@,
            TransferMode::ExternalClamp => "EXTERNAL CLAMP"@,
            TransferMode::Tow => "TOW RIG"@,
        }
    }

    pub fn destination_label(self) -> (r: &'static str)
        ensures
            r@ == self.destination_label_spec(),
    {
        match self {
            TransferMode::InternalCargo => "SALVAGE HOLD",
            TransferMode::ExternalClamp => "EXTERNAL CLAMP",
            TransferMode::Tow => "TOW RIG",
        }
    }

    pub open spec fn command_label_spec(self) -> Seq<char> {
        match self {
            TransferMode::InternalCargo => "LOAD CARGO"@,
            TransferMode::ExternalClamp => "LOCK CLAMP"@,
            TransferMode::Tow => "ENGAGE TOW"@,
        }
    }

    pub fn command_label(self) -> (r: &'static str)
        ensures
            r@ == self.command_label_spec(),
    {
        match self {
            TransferMode::InternalCargo => "LOAD CARGO",
            TransferMode::ExternalClamp => "LOCK CLAMP",
            TransferMode::Tow => "ENGAGE TOW",
        }
    }

    pub open spec fn cancel_label_spec(self) -> Seq<char> {
        match self {
            TransferMode::InternalCargo => "CANCEL CARGO"@,
            TransferMode::ExternalClamp => "CANCEL CLAMP"@,
            TransferMode::Tow => "CANCEL TOW"@,
        }
    }

    pub fn cancel_label(self) -> (r: &'static str)
        ensures
            r@ == self.cancel_label_spec(),
    {
        match self {
            TransferMode::InternalCargo => "CANCEL CARGO",
            TransferMode::ExternalClamp => "CANCEL CLAMP",
            TransferMode::Tow => "CANCEL TOW",
        }
    }

    pub open spec fn engaged_message_spec(self) -> Seq<char> {
        match self {
            TransferMode::InternalCargo => "Cargo intake engaged."@,
            TransferMode::ExternalClamp => "External clamp engaged."@,
            TransferMode::Tow => "Tow rig engaged."@,
        }
    }

    pub fn engaged_message(self) -> (r: &'static str)
        ensures
            r@ == self.engaged_message_spec(),
    {
        match self {
            TransferMode::InternalCargo => "Cargo intake engaged.",
            TransferMode::ExternalClamp => "External clamp engaged.",
            TransferMode::Tow => "Tow rig engaged.",
        }
    }

    pub open spec fn queue_label_spec(self) -> Seq<char> {
        match self {
            TransferMode::InternalCargo => "salvage hold queue"@,
            TransferMode::ExternalClamp => "external clamp queue"@,
            TransferMode::Tow => "tow rig queue"@,
        }
    }

    pub fn queue_label(self) -> (r: &'static str)
        ensures
            r@ == self.queue_label_spec(),
    {
        match self {
            TransferMode::InternalCargo => "salvage hold queue",
            TransferMode::ExternalClamp => "external clamp queue",
            TransferMode::Tow => "tow rig queue",
        }
    }

    pub open spec fn phase_label_spec(self, phase: ExtractionPhase) -> Seq<char> {
        match (self, phase) {
            (TransferMode::InternalCargo, ExtractionPhase::Alignment) => "ALIGNING INTAKE"@,
            (TransferMode::InternalCargo, ExtractionPhase::Connection) => "CARGO INTAKE LIVE"@,
            (TransferMode::InternalCargo, ExtractionPhase::Strain) => "LOADING UNDER STRAIN"@,
            (TransferMode::InternalCargo, ExtractionPhase::Separation) => "BREAKING CARGO FREE"@,
            (TransferMode::InternalCargo, ExtractionPhase::Retrieval) => "RETRIEVING TO HOLD"@,
            (TransferMode::InternalCargo, ExtractionPhase::Capture) => "CARGO LOCKED"@,
            (TransferMode::ExternalClamp, ExtractionPhase::Alignment) => "ALIGNING CLAMP"@,
            (TransferMode::ExternalClamp, ExtractionPhase::Connection) => "CLAMP CONTACT"@,
            (TransferMode::ExternalClamp, ExtractionPhase::Strain) => "CLAMP UNDER LOAD"@,
            (TransferMode::ExternalClamp, ExtractionPhase::Separation) => "SEATING CLAMP"@,
            (TransferMode::ExternalClamp, ExtractionPhase::Retrieval) => "RETRIEVING TO CLAMP"@,
            (TransferMode::ExternalClamp, ExtractionPhase::Capture) => "CLAMP SEALED"@,
            (TransferMode::Tow, ExtractionPhase::Alignment) => "ALIGNING TOW HEAD"@,
            (TransferMode::Tow, ExtractionPhase::Connection) => "TOW LINE CONNECTED"@,
            (TransferMode::Tow, ExtractionPhase::Strain) => "TOW LINE UNDER LOAD"@,
            (TransferMode::Tow, ExtractionPhase::Separation) => "BREAKING TOW FREE"@,
            (TransferMode::Tow, ExtractionPhase::Retrieval) => "RETRIEVING TO RIG"@,
            (TransferMode::Tow, ExtractionPhase::Capture) => "TOW COUPLED"@,
        }
    }

    pub fn phase_label(self, phase: ExtractionPhase) -> (r: &'static str)
        ensures
            r@ == self.phase_label_spec(phase),
    {
        match (self, phase) {
            (TransferMode::InternalCargo, ExtractionPhase::Alignment) => "ALIGNING INTAKE",
            (TransferMode::InternalCargo, ExtractionPhase::Connection) => "CARGO INTAKE LIVE",
            (TransferMode::InternalCargo, ExtractionPhase::Strain) => "LOADING UNDER STRAIN",
            (TransferMode::InternalCargo, ExtractionPhase::Separation) => "BREAKING CARGO FREE",
            (TransferMode::InternalCargo, ExtractionPhase::Retrieval) => "RETRIEVING TO HOLD",
            (TransferMode::InternalCargo, ExtractionPhase::Capture) => "CARGO LOCKED",
            (TransferMode::ExternalClamp, ExtractionPhase::Alignment) => "ALIGNING CLAMP",
            (TransferMode::ExternalClamp, ExtractionPhase::Connection) => "CLAMP CONTACT",
            (TransferMode::ExternalClamp, ExtractionPhase::Strain) => "CLAMP UNDER LOAD",
            (TransferMode::ExternalClamp, ExtractionPhase::Separation) => "SEATING CLAMP",
            (TransferMode::ExternalClamp, ExtractionPhase::Retrieval) => "RETRIEVING TO CLAMP",
            (TransferMode::ExternalClamp, ExtractionPhase::Capture) => "CLAMP SEALED",
            (TransferMode::Tow, ExtractionPhase::Alignment) => "ALIGNING TOW HEAD",
            (TransferMode::Tow, ExtractionPhase::Connection) => "TOW LINE CONNECTED",
            (TransferMode::Tow, ExtractionPhase::Strain) => "TOW LINE UNDER LOAD",
            (TransferMode::Tow, ExtractionPhase::Separation) => "BREAKING TOW FREE",
            (TransferMode::Tow, ExtractionPhase::Retrieval) => "RETRIEVING TO RIG",
            (TransferMode::Tow, ExtractionPhase::Capture) => "TOW COUPLED",
        }
    }
}

/// How a target is called in the workspace.
pub open spec fn workspace_name_spec(target: SalvageObjectData) -> Seq<char> {
    if target.workspace_name@.len() == 0 {
        target.display_name@
    } else {
        target.workspace_name@
    }
}

pub fn workspace_name(target: &SalvageObjectData) -> (r: &String)
    ensures
        r@ == workspace_name_spec(*target),
{
    if target.workspace_name.as_str().is_empty() {
        &target.display_name
    } else {
        &target.workspace_name
    }
}

/// Targets of a section that are recovered in the given progress.
pub open spec fn recovered_in(section: WreckSectionData, removed: Seq<Seq<char>>) -> int {
    views(section.candidate_targets@).filter(|t: Seq<char>| removed.contains(t)).len() as int
}

impl GameSession {
    pub open spec fn workspace_site_spec(&self, data: GameData) -> Option<SiteData> {
        match self.expedition {
            Some(e) => data.site_spec(e.site_id@),
            None => None,
        }
    }

    /// The wreck the active run works.
    pub fn workspace_site<'a>(&self, data: &'a GameData) -> (r: Result<&'a SiteData, String>)
        ensures
            match r {
                Ok(s) => self.workspace_site_spec(*data) == Some(*s),
                Err(e) => self.workspace_site_spec(*data) is None && (self.expedition is None ==> e@
                    == "there is no active expedition"@) && (self.expedition is Some ==> e@
                    == "unknown salvage site '"@ + self.expedition.unwrap().site_id@ + "'"@),
            },
            r matches Ok(s) ==> (data.wf() ==> s.wf()) && s.id@ == self.expedition.unwrap().site_id@,
    {
        let site_id = match &self.expedition {
            Some(e) => e.site_id.as_str(),
            None => {
                return Err("there is no active expedition".to_owned());
            },
        };
        match data.site(site_id) {
            Some(s) => Ok(s),
            None => {
                let mut e = "unknown salvage site '".to_owned();
                e.append(site_id);
                e.append("'");
                Err(e)
            },
        }
    }

    pub open spec fn workspace_section_spec(&self, data: GameData) -> Option<WreckSectionData> {
        match self.workspace_site_spec(data) {
            None => None,
            Some(site) => match keyed(site.sections@, self.expedition.unwrap().workspace_section@) {
                Some(s) => Some(s),
                None => if site.sections.len() > 0 {
                    Some(site.sections@[0])
                } else {
                    None
                },
            },
        }
    }

    /// The section the run is working, or the first section of the wreck
    /// when the recorded one is unknown.
    /// Why the run has no current section: no run, an unknown site, or a
    /// site without sections.
    pub open spec fn section_missing_message(&self, data: GameData) -> Seq<char> {
        if self.expedition is None {
            "there is no active expedition"@
        } else if self.workspace_site_spec(data) is None {
            "unknown salvage site '"@ + self.expedition.unwrap().site_id@ + "'"@
        } else {
            "site '"@ + self.workspace_site_spec(data).unwrap().id@ + "' has no workspace sections"@
        }
    }

    pub fn workspace_section<'a>(&self, data: &'a GameData) -> (r: Result<&'a WreckSectionData, String>)
        ensures
            match r {
                Ok(s) => self.workspace_section_spec(*data) == Some(*s),
                Err(e) => self.workspace_section_spec(*data) is None && e@ == self.section_missing_message(
                    *data,
                ),
            },
    {
        let site = self.workspace_site(data)?;
        let section_id = match &self.expedition {
            Some(e) => e.workspace_section.as_str(),
            None => "",
        };
        match site.section(section_id) {
            Some(s) => Ok(s),
            None => if site.sections.len() > 0 {
                Ok(&site.sections[0])
            } else {
                let mut e = "site '".to_owned();
                e.append(site.id.as_str());
                e.append("' has no workspace sections");
                Err(e)
            },
        }
    }

    /// The run's field power: remaining and capacity.
    pub fn workspace_energy(&self) -> (r: Option<(i32, i32)>)
        ensures
            r == match self.expedition {
                Some(e) => Some((e.workspace_energy, e.workspace_energy_capacity)),
                None => None,
            },
    {
        match &self.expedition {
            Some(e) => Some((e.workspace_energy, e.workspace_energy_capacity)),
            None => None,
        }
    }

    /// The field log of the wreck the run works.
    pub fn workspace_log(&self) -> (r: Option<&Vec<WorkspaceLogEntry>>)
        ensures
            match r {
                Some(log) => self.expedition is Some && self.progress_spec(
                    self.expedition.unwrap().site_id@,
                ) is Some && *log == self.progress_spec(
                    self.expedition.unwrap().site_id@,
                ).unwrap().operation_log,
                None => self.expedition is None || self.progress_spec(
                    self.expedition.unwrap().site_id@,
                ) is None,
            },
    {
        let e = self.expedition.as_ref()?;
        match self.progress(e.site_id.as_str()) {
            Some(p) => Some(&p.operation_log),
            None => None,
        }
    }

    /// Files an event in the log of a wreck, numbered after the last entry.
    pub fn append_workspace_log(
        &mut self,
        site_id: &str,
        event: WorkspaceLogEvent,
        section_id: Option<&str>,
        target_id: Option<&str>,
    )
        requires
            old(self).log_room(1),
        ensures
            logged(
                *old(self),
                final(self).site_progress@,
                site_id@,
                event,
                opt_str_view(section_id),
                opt_str_view(target_id),
            ),
            *final(self) == (GameSession { site_progress: final(self).site_progress, ..*old(self) }),
            final(self).log_room(0),
    {
        match self.progress_slot(site_id) {
            Some(i) => {
                let sequence = self.site_progress[i].operation_log.len() as u32 + 1;
                let entry = WorkspaceLogEntry::new(sequence, event, section_id, target_id);
                self.site_progress[i].operation_log.push(entry);
                proof {
                    assert(self.site_progress@[i as int].operation_log@.drop_last() =~= old(self).site_progress@[i as int].operation_log@);
                }
            },
            None => {},
        }
    }

    /// Files an event for the run's current section.
    pub fn record_workspace_event(&mut self, event: WorkspaceLogEvent, target_id: Option<&str>)
        requires
            old(self).log_room(1),
        ensures
            old(self).expedition is None ==> *final(self) == *old(self),
            old(self).expedition is Some ==> logged(
                *old(self),
                final(self).site_progress@,
                old(self).expedition.unwrap().site_id@,
                event,
                Some(old(self).expedition.unwrap().workspace_section@),
                opt_str_view(target_id),
            ),
            *final(self) == (GameSession { site_progress: final(self).site_progress, ..*old(self) }),
            final(self).log_room(0),
    {
        let (site_id, section_id) = match &self.expedition {
            Some(e) => (e.site_id.clone(), e.workspace_section.clone()),
            None => {
                return;
            },
        };
        self.append_workspace_log(site_id.as_str(), event, Some(section_id.as_str()), target_id);
    }

    pub open spec fn section_condition_spec(
        &self,
        site_id: Seq<char>,
        section_id: Seq<char>,
        data: GameData,
    ) -> Option<WorkspaceConditionStatus> {
        match data.site_spec(site_id) {
            None => None,
            Some(site) => match keyed(site.sections@, section_id) {
                None => None,
                Some(section) => {
                    let frame = crate::engine::clamp(
                        match self.progress_spec(site_id) {
                            Some(p) => p.condition as int,
                            None => site.condition as int,
                        },
                        0,
                        100,
                    );
                    let recovered = match self.progress_spec(site_id) {
                        Some(p) => recovered_in(section, views(p.removed_targets@)),
                        None => 0,
                    };
                    let discovered = match self.progress_spec(site_id) {
                        Some(p) => views(p.discovered_sections@).contains(section.id@),
                        None => false,
                    };
                    let section_condition = if frame - recovered * 8 < 0 {
                        0
                    } else {
                        frame - recovered * 8
                    };
                    Some(
                        WorkspaceConditionStatus {
                            frame_condition: frame as i32,
                            section_condition: section_condition as i32,
                            recovered_targets: recovered as usize,
                            total_targets: section.candidate_targets.len(),
                            discovered,
                        },
                    )
                },
            },
        }
    }

    /// Frame and section condition of a wreck section from saved progress.
    pub fn site_section_condition_status(
        &self,
        site_id: &str,
        section_id: &str,
        data: &GameData,
    ) -> (r: Option<WorkspaceConditionStatus>)
        requires
            data.wf(),
        ensures
            r == self.section_condition_spec(site_id@, section_id@, *data),
    {
        let site = data.site(site_id)?;
        let section = site.section(section_id)?;
        let progress = self.progress(site_id);
        let raw = match progress {
            Some(p) => p.condition,
            None => site.condition,
        };
        let frame = crate::engine::clamp_i32(raw, 0, 100);
        let (recovered, discovered) = match progress {
            Some(p) => (
                count_recovered(&section.candidate_targets, &p.removed_targets),
                crate::text::has_id(&p.discovered_sections, section.id.as_str()),
            ),
            None => (0, false),
        };
        let wear = (recovered as i32) * 8;
        let section_condition = if frame - wear < 0 {
            0
        } else {
            frame - wear
        };
        Some(
            WorkspaceConditionStatus {
                frame_condition: frame,
                section_condition,
                recovered_targets: recovered,
                total_targets: section.candidate_targets.len(),
                discovered,
            },
        )
    }

    /// Condition of the section the run is working.
    pub fn workspace_condition_status(&self, data: &GameData) -> (r: Result<
        WorkspaceConditionStatus,
        String,
    >)
        requires
            data.wf(),
        ensures
            r is Ok <==> self.workspace_section_spec(*data) is Some
                && self.section_condition_spec(
                self.workspace_site_spec(*data).unwrap().id@,
                self.workspace_section_spec(*data).unwrap().id@,
                *data,
            ) is Some,
            r matches Ok(status) ==> Some(status) == self.section_condition_spec(
                self.workspace_site_spec(*data).unwrap().id@,
                self.workspace_section_spec(*data).unwrap().id@,
                *data,
            ),
    {
        let site = self.workspace_site(data)?;
        let section = self.workspace_section(data)?;
        match self.site_section_condition_status(site.id.as_str(), section.id.as_str(), data) {
            Some(s) => Ok(s),
            None => {
                let mut e = "unknown wreck section '".to_owned();
                e.append(section.id.as_str());
                e.append("'");
                Err(e)
            },
        }
    }
}

/// How many of `targets` appear in `removed`.
pub fn count_recovered(targets: &Vec<String>, removed: &Vec<String>) -> (r: usize)
    requires
        targets.len() <= 1000,
    ensures
        r == views(targets@).filter(|t: Seq<char>| views(removed@).contains(t)).len(),
        r <= 1000,
{
    let ghost pred = |t: Seq<char>| views(removed@).contains(t);
    let mut n: usize = 0;
    let mut i: usize = 0;
    while i < targets.len()
        invariant
            i <= targets.len(),
            targets.len() <= 1000,
            pred == (|t: Seq<char>| views(removed@).contains(t)),
            n == views(targets@).take(i as int).filter(pred).len(),
            n <= i,
        decreases targets.len() - i,
    {
        proof {
            reveal_with_fuel(Seq::<_>::filter, 1);
            assert(views(targets@).take(i + 1).drop_last() =~= views(targets@).take(i as int));
            assert(views(targets@).take(i + 1).last() == targets@[i as int]@);
        }
        if crate::text::has_id(removed, targets[i].as_str()) {
            n = n + 1;
        }
        i = i + 1;
    }
    proof {
        assert(views(targets@).take(targets.len() as int) =~= views(targets@));
    }
    n
}

} // verus!
