//! The lifecycle guards in front of every transition.
use crate::errors::CrazySolError;
use crate::states::LaboratoryState;
use vstd::prelude::*;

verus! {

/// The error, if any, that the initialized-and-unlocked guard gives.
pub open spec fn operational_error(lab: LaboratoryState) -> Option<CrazySolError> {
    if !lab.is_initialized {
        Some(CrazySolError::NotInitialized)
    } else if lab.emergency_lockdown {
        Some(CrazySolError::CurrentlyPaused)
    } else {
        None
    }
}

pub fn verify_laboratory_initialized_and_operational(laboratory_state: &LaboratoryState) -> (r:
    Result<(), CrazySolError>)
    ensures
        r == (match operational_error(*laboratory_state) {
            Some(e) => Err(e),
            None => Ok(()),
        }),
{
    require_initialized(laboratory_state)?;
    require_operational(laboratory_state)?;
    Ok(())
}

pub fn require_not_initialized(laboratory_state: &LaboratoryState) -> (r: Result<(), CrazySolError>)
    ensures
        r == (if laboratory_state.is_initialized {
            Err(CrazySolError::AlreadyInitialized)
        } else {
            Ok(())
        }),
{
    if laboratory_state.is_initialized {
        return Err(CrazySolError::AlreadyInitialized);
    }
    Ok(())
}

pub fn require_initialized(laboratory_state: &LaboratoryState) -> (r: Result<(), CrazySolError>)
    ensures
        r == (if laboratory_state.is_initialized {
            Ok(())
        } else {
            Err(CrazySolError::NotInitialized)
        }),
{
    if !laboratory_state.is_initialized {
        return Err(CrazySolError::NotInitialized);
    }
    Ok(())
}

pub fn require_operational(laboratory_state: &LaboratoryState) -> (r: Result<(), CrazySolError>)
    ensures
        r == (if laboratory_state.emergency_lockdown {
            Err(CrazySolError::CurrentlyPaused)
        } else {
            Ok(())
        }),
{
    if laboratory_state.emergency_lockdown {
        return Err(CrazySolError::CurrentlyPaused);
    }
    Ok(())
}

pub fn require_innoculation_not_happened(laboratory_state: &LaboratoryState) -> (r: Result<
    (),
    CrazySolError,
>)
    ensures
        r == (if laboratory_state.innoculation_happened {
            Err(CrazySolError::InnoculationAlreadyHappened)
        } else {
            Ok(())
        }),
{
    if laboratory_state.innoculation_happened {
        return Err(CrazySolError::InnoculationAlreadyHappened);
    }
    Ok(())
}

} // verus!
