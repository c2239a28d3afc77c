//! Typed scan profiles retained by an active expedition.

use vstd::prelude::*;

verus! {

#[derive(Clone, Copy, Debug, PartialEq, Eq, Structural)]
pub enum WorkspaceScanProfile {
    Standard,
    Array,
}

impl WorkspaceScanProfile {
    pub open spec fn from_capability_spec(has_scanner_array: bool) -> Self {
        if has_scanner_array {
            WorkspaceScanProfile::Array
        } else {
            WorkspaceScanProfile::Standard
        }
    }

    pub fn from_capability(has_scanner_array: bool) -> (r: Self)
        ensures
            r == Self::from_capability_spec(has_scanner_array),
    {
        if has_scanner_array {
            WorkspaceScanProfile::Array
        } else {
            WorkspaceScanProfile::Standard
        }
    }

    pub open spec fn short_label_spec(self) -> Seq<char> {
        match self {
            WorkspaceScanProfile::Standard => "STANDARD"@,
            WorkspaceScanProfile::Array => "ARRAY"@,
        }
    }

    pub fn short_label(self) -> (r: &'static str)
        ensures
            r@ == self.short_label_spec(),
    {
        match self {
            WorkspaceScanProfile::Standard => "STANDARD",
            WorkspaceScanProfile::Array => "ARRAY",
        }
    }

    pub open spec fn result_label_spec(self) -> Seq<char> {
        match self {
            WorkspaceScanProfile::Standard => "STANDARD SCAN"@,
            WorkspaceScanProfile::Array => "ARRAY SCAN // DEEP RESOLVE"@,
        }
    }

    pub fn result_label(self) -> (r: &'static str)
        ensures
            r@ == self.result_label_spec(),
    {
        match self {
            WorkspaceScanProfile::Standard => "STANDARD SCAN",
            WorkspaceScanProfile::Array => "ARRAY SCAN // DEEP RESOLVE",
        }
    }

    pub fn pulse_count(self) -> (r: usize)
        ensures
            r == (if self is Array { 2usize } else { 1usize }),
    {
        match self {
            WorkspaceScanProfile::Standard => 1,
            WorkspaceScanProfile::Array => 2,
        }
    }
}

} // verus!
