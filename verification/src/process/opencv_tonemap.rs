//! Tone mapping with OpenCV: the operators offered and the checks made first.

use vstd::prelude::*;

use crate::text::owned;
use crate::ui::setup_dialog::ToneMapChoice;

verus! {

/// The OpenCV tone mapping operators.
#[derive(Debug, Clone, Copy, PartialEq, Eq, Structural)]
pub enum ToneMappingOperator {
    Reinhard,
    Drago,
    Mantiuk,
}

impl Default for ToneMappingOperator {
    fn default() -> (r: Self)
        ensures
            r == ToneMappingOperator::Reinhard,
    {
        ToneMappingOperator::Reinhard
    }
}

impl ToneMappingOperator {
    /// The OpenCV operator for an operator chosen in the settings; Durand has no
    /// OpenCV operator here, so it is tone mapped with Reinhard's.
    pub fn from_choice(choice: ToneMapChoice) -> (r: Self)
        ensures
            r == match choice {
                ToneMapChoice::Drago => ToneMappingOperator::Drago,
                ToneMapChoice::Mantiuk => ToneMappingOperator::Mantiuk,
                _ => ToneMappingOperator::Reinhard,
            },
    {
        match choice {
            ToneMapChoice::Drago => ToneMappingOperator::Drago,
            ToneMapChoice::Mantiuk => ToneMappingOperator::Mantiuk,
            ToneMapChoice::Reinhard | ToneMapChoice::Durand => ToneMappingOperator::Reinhard,
        }
    }

    /// The operator's name as logs show it.
    pub fn name(&self) -> (r: String)
        ensures
            r@ == match *self {
                ToneMappingOperator::Reinhard => "Reinhard"@,
                ToneMappingOperator::Drago => "Drago"@,
                ToneMappingOperator::Mantiuk => "Mantiuk"@,
            },
    {
        match self {
            ToneMappingOperator::Reinhard => owned("Reinhard"),
            ToneMappingOperator::Drago => owned("Drago"),
            ToneMappingOperator::Mantiuk => owned("Mantiuk"),
        }
    }
}

/// There must be HDR images to tone map.
pub fn check_hdr_files(n_files: usize) -> (r: Result<(), String>)
    ensures
        n_files == 0 ==> (r matches Err(m) && m@ == "No HDR files to tone map"@),
        n_files > 0 ==> r is Ok,
{
    if n_files == 0 {
        Err(owned("No HDR files to tone map"))
    } else {
        Ok(())
    }
}

} // verus!
