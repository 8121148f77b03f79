use vstd::prelude::*;
use crate::error::ControlError;
use crate::model::SessionControl;
use crate::registry::{first_with_source, holds_source, SessionRegistry};

verus! {

/// A verb bound for the session that was found for it.
#[derive(Debug, Clone, PartialEq, Eq)]
pub struct ControlRequest {
    pub session_id: usize,
    pub source: String,
    pub control: SessionControl,
}

/// Finds the session a verb is meant for: the lowest active id whose source
/// is `source`. With no such session it fails with `NotFound`; the registry
/// is only read, so no id is allocated and no session is created.
pub fn resolve_control(registry: &SessionRegistry, source: &String, control: SessionControl) -> (r:
    Result<ControlRequest, ControlError>)
    ensures
        r is Err <==> forall|j: int| 0 <= j < registry@.len() ==> !holds_source(#[trigger] registry@[j], source@),
        r is Err ==> r->Err_0 == ControlError::NotFound,
        r is Ok ==> first_with_source(registry@, source@, r->Ok_0.session_id as nat),
        r is Ok ==> r->Ok_0.source == *source && r->Ok_0.control == control,
{
    match registry.find_source(source) {
        Some(session_id) => Ok(ControlRequest { session_id, source: source.clone(), control }),
        None => Err(ControlError::NotFound),
    }
}

/// Picks, among the sources of the broker's sessions in their order, the
/// first that is `source`; with none it fails with `NotFound`.
pub fn select_target(sources: &Vec<String>, source: &String) -> (r: Result<usize, ControlError>)
    ensures
        r is Err <==> forall|j: int| 0 <= j < sources@.len() ==> (#[trigger] sources@[j])@ != source@,
        r is Err ==> r->Err_0 == ControlError::NotFound,
        r is Ok ==> r->Ok_0 < sources@.len() && sources@[r->Ok_0 as int]@ == source@,
        r is Ok ==> forall|j: int| 0 <= j < r->Ok_0 ==> (#[trigger] sources@[j])@ != source@,
{
    let mut i: usize = 0;
    while i < sources.len()
        invariant
            i <= sources@.len(),
            forall|j: int| 0 <= j < i ==> (#[trigger] sources@[j])@ != source@,
        decreases sources@.len() - i,
    {
        if sources[i] == *source {
            return Ok(i);
        }
        i = i + 1;
    }
    Err(ControlError::NotFound)
}

/// The result of a control call: the session's refusal is `RejectedByTarget`.
pub fn control_outcome(accepted: bool) -> (r: Result<(), ControlError>)
    ensures
        accepted ==> r is Ok,
        !accepted ==> r == Err::<(), ControlError>(ControlError::RejectedByTarget),
{
    if accepted {
        Ok(())
    } else {
        Err(ControlError::RejectedByTarget)
    }
}

} // verus!
