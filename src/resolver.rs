use vstd::prelude::*;

use crate::state::{parse_state, str_equal, InstanceState, UnknownStateError};

verus! {

/// One entry of a describe-status response: the instance it is about and the
/// name of the state reported for it, either of which may be missing.
pub struct StatusEntry {
    pub instance_id: Option<String>,
    pub state_name: Option<String>,
}

/// Why the lifecycle state could not be resolved. Every variant is fatal to
/// the flow that asked.
#[derive(Debug)]
pub enum ResolveError {
    /// The describe-status call itself failed; carries its diagnostic.
    RemoteQuery(String),
    /// The response had no entry for the instance, or the entry had no state name.
    MalformedResponse,
    /// The reported state name is not one of the six known ones.
    UnknownState(UnknownStateError),
}

/// Whether an entry is about the instance `id`.
pub open spec fn entry_is_for(e: StatusEntry, id: Seq<char>) -> bool {
    e.instance_id is Some && e.instance_id->0@ == id
}

/// The position of the first entry about the instance `id` at or after `from`.
pub open spec fn entry_index_from(entries: Seq<StatusEntry>, id: Seq<char>, from: int) -> Option<int>
    decreases entries.len() - from,
{
    if from < 0 || from >= entries.len() {
        None
    } else if entry_is_for(entries[from], id) {
        Some(from)
    } else {
        entry_index_from(entries, id, from + 1)
    }
}

/// The position of the first entry about the instance `id`, if there is one.
pub open spec fn entry_index(entries: Seq<StatusEntry>, id: Seq<char>) -> Option<int> {
    entry_index_from(entries, id, 0)
}

/// The state name reported for the instance `id`, when the response holds an
/// entry for it that carries one.
pub open spec fn reported_name(
    statuses: Option<Vec<StatusEntry>>,
    id: Seq<char>,
) -> Option<Seq<char>> {
    match statuses {
        None => None,
        Some(v) => match entry_index(v@, id) {
            None => None,
            Some(k) => match v@[k].state_name {
                None => None,
                Some(n) => Some(n@),
            },
        },
    }
}

/// Whether `r` is the outcome of resolving instance `id` from `response`.
pub open spec fn resolves_to(
    id: Seq<char>,
    response: Result<Option<Vec<StatusEntry>>, String>,
    r: Result<InstanceState, ResolveError>,
) -> bool {
    match response {
        Err(msg) => r is Err && r->Err_0 is RemoteQuery && r->Err_0->RemoteQuery_0@ == msg@,
        Ok(statuses) => match reported_name(statuses, id) {
            None => r is Err && r->Err_0 is MalformedResponse,
            Some(n) => match parse_state(n) {
                Some(s) => r is Ok && r->Ok_0 == s,
                None => r is Err && r->Err_0 is UnknownState && r->Err_0->UnknownState_0.raw@ == n,
            },
        },
    }
}

/// Finds the first entry about the instance `id`.
fn find_entry(entries: &Vec<StatusEntry>, id: &str) -> (r: Option<usize>)
    ensures
        match entry_index(entries@, id@) {
            None => r is None,
            Some(k) => 0 <= k < entries@.len() && r == Some(k as usize),
        },
{
    let mut i: usize = 0;
    while i < entries.len()
        invariant
            i <= entries@.len(),
            entry_index(entries@, id@) == entry_index_from(entries@, id@, i as int),
        decreases entries.len() - i,
    {
        let matches = match &entries[i].instance_id {
            Some(e) => str_equal(e.as_str(), id),
            None => false,
        };
        if matches {
            return Some(i);
        }
        i = i + 1;
    }
    None
}

/// Decodes the answer to one describe-status request for instance
/// `instance_id` into its lifecycle state. The request itself is made by the
/// caller; `response` is its result, or the call's diagnostic when it failed.
pub fn decode_status(
    instance_id: &str,
    response: Result<Option<Vec<StatusEntry>>, String>,
) -> (r: Result<InstanceState, ResolveError>)
    ensures
        resolves_to(instance_id@, response, r),
{
    match response {
        Err(msg) => Err(ResolveError::RemoteQuery(msg)),
        Ok(None) => Err(ResolveError::MalformedResponse),
        Ok(Some(entries)) => {
            let found = find_entry(&entries, instance_id);
            match found {
                None => Err(ResolveError::MalformedResponse),
                Some(k) => {
                    let entry = &entries[k];
                    match &entry.state_name {
                        None => Err(ResolveError::MalformedResponse),
                        Some(name) => match InstanceState::from_str(name.as_str()) {
                            Ok(s) => Ok(s),
                            Err(e) => Err(ResolveError::UnknownState(e)),
                        },
                    }
                },
            }
        },
    }
}

/// Resolving is a function of the response alone: two resolutions of the same
/// instance against the same response, with no change on the remote side in
/// between, give the same state, or fail in the same way.
pub proof fn lemma_resolve_is_stable(
    id: Seq<char>,
    response: Result<Option<Vec<StatusEntry>>, String>,
    first: Result<InstanceState, ResolveError>,
    second: Result<InstanceState, ResolveError>,
)
    requires
        resolves_to(id, response, first),
        resolves_to(id, response, second),
    ensures
        first is Ok <==> second is Ok,
        first is Ok ==> first->Ok_0 == second->Ok_0,
        first is Err ==> (first->Err_0 is RemoteQuery <==> second->Err_0 is RemoteQuery),
        first is Err ==> (first->Err_0 is MalformedResponse <==> second->Err_0 is MalformedResponse),
        first is Err ==> (first->Err_0 is UnknownState <==> second->Err_0 is UnknownState),
{
}

} // verus!
