use vstd::prelude::*;

use crate::permissions::{allows, AccessMode, Permissions};
use crate::store::{
    batch_step, path_taken, updates_model, Datapoint, EntryError, EntryStore,
    EntryType, EntryUpdate, StoreModel, UpdateModel,
};
use crate::wire::{datapoint_of_wire, WireDatapoint};

verus! {

/// A batch of values that a provider publishes, keyed by entry id.
#[derive(Debug)]
pub struct PublishValuesRequest {
    pub request_id: u32,
    pub datapoints: Vec<(i32, WireDatapoint)>,
}

/// The answer to a publication: the request's id, and each failing entry id
/// with its error (empty when every value was accepted).
#[derive(Debug)]
pub struct PublishValuesResponse {
    pub request_id: u32,
    pub status: Vec<(i32, EntryError)>,
}

/// The signal paths whose actuation requests a provider offers to serve.
#[derive(Debug)]
pub struct ProvideActuationRequest {
    pub paths: Vec<String>,
}

/// Each offered path that could not be taken on, with its error.
#[derive(Debug)]
pub struct ProvideActuationResponse {
    pub status: Vec<(String, EntryError)>,
}

/// One inbound message of a provider stream.
#[derive(Debug)]
pub enum ProviderAction {
    PublishValues(PublishValuesRequest),
    ProvideActuation(ProvideActuationRequest),
    BatchActuateStreamResponse,
    Unset,
}

/// One outbound message of a provider stream.
#[derive(Debug)]
pub enum ProviderResponse {
    PublishValues(PublishValuesResponse),
    ProvideActuation(ProvideActuationResponse),
}

/// What a provider session can observe next.
#[derive(Debug)]
pub enum SessionEvent {
    Message(ProviderAction),
    StreamEnded,
    TransportError,
    Shutdown,
}

/// Errors of the service calls themselves.
#[derive(Clone, Copy, Debug, PartialEq, Eq, Structural)]
pub enum RpcError {
    Unauthenticated,
    Unimplemented,
}

/// The updates that a publication makes: one per datapoint, setting its value
/// at broker time `now`.
pub open spec fn publish_updates(d: Seq<(i32, WireDatapoint)>, now: u64) -> Seq<(i32, UpdateModel)> {
    d.map_values(
        |p: (i32, WireDatapoint)|
            (
                p.0,
                UpdateModel {
                    path: None,
                    datapoint: Some(datapoint_of_wire(p.1, now)),
                    actuator_target: None,
                    entry_type: None,
                    data_type: None,
                    description: None,
                    allowed: None,
                    unit: None,
                },
            ),
    )
}

/// Whether a session may serve actuation of `path`: the id of its entry, or
/// why not.
pub open spec fn actuation_check(
    s: StoreModel,
    perms: Seq<(Seq<char>, AccessMode)>,
    path: Seq<char>,
) -> Result<i32, EntryError> {
    if !path_taken(s, path) {
        Err(EntryError::NotFound)
    } else {
        let i = choose|i: int| 0 <= i < s.entries.len() && #[trigger] s.entries[i].path == path;
        if !allows(perms, path, AccessMode::Actuate) {
            Err(EntryError::PermissionDenied)
        } else if s.entries[i].entry_type != EntryType::Actuator {
            Err(EntryError::InvalidValue)
        } else {
            Ok(s.entries[i].id)
        }
    }
}

/// The ids of the offered paths that were taken on, in order.
pub open spec fn actuation_ids(
    s: StoreModel,
    perms: Seq<(Seq<char>, AccessMode)>,
    paths: Seq<Seq<char>>,
) -> Seq<i32>
    decreases paths.len(),
{
    if paths.len() == 0 {
        Seq::empty()
    } else {
        let rest = actuation_ids(s, perms, paths.drop_last());
        match actuation_check(s, perms, paths.last()) {
            Ok(id) => rest.push(id),
            Err(_) => rest,
        }
    }
}

/// The offered paths that were refused, in order, each with its error.
pub open spec fn actuation_errors(
    s: StoreModel,
    perms: Seq<(Seq<char>, AccessMode)>,
    paths: Seq<Seq<char>>,
) -> Seq<(Seq<char>, EntryError)>
    decreases paths.len(),
{
    if paths.len() == 0 {
        Seq::empty()
    } else {
        let rest = actuation_errors(s, perms, paths.drop_last());
        match actuation_check(s, perms, paths.last()) {
            Ok(_) => rest,
            Err(e) => rest.push((paths.last(), e)),
        }
    }
}

pub open spec fn paths_model(v: Seq<String>) -> Seq<Seq<char>> {
    v.map_values(|s: String| s@)
}

pub open spec fn errors_model(v: Seq<(String, EntryError)>) -> Seq<(Seq<char>, EntryError)> {
    v.map_values(|p: (String, EntryError)| (p.0@, p.1))
}

/// Publishes the values of `request` under `perms` at broker time `now`, each
/// on its own, and answers with the request's id and the failing ids.
pub fn publish_values(
    store: &mut EntryStore,
    perms: &Permissions,
    request: PublishValuesRequest,
    now: u64,
) -> (r: PublishValuesResponse)
    requires
        old(store).wf(),
    ensures
        final(store).wf(),
        r.request_id == request.request_id,
        (final(store)@, r.status@) == batch_step(
            old(store)@,
            perms@,
            publish_updates(request.datapoints@, now),
            now,
        ),
{
    let ghost orig = request.datapoints@;
    let ghost target = publish_updates(orig, now);
    let request_id = request.request_id;
    let mut datapoints = request.datapoints;
    let mut reversed: Vec<(i32, EntryUpdate)> = Vec::new();
    while datapoints.len() > 0
        invariant
            datapoints@ == orig.take(orig.len() - reversed@.len()),
            reversed@.len() <= orig.len(),
            target == publish_updates(orig, now),
            target.len() == orig.len(),
            forall|k: int|
                0 <= k < reversed@.len() ==> #[trigger] updates_model(reversed@)[k] == target[orig.len()
                    - 1 - k],
        decreases datapoints@.len(),
    {
        let ghost before = datapoints@;
        let (id, dp) = datapoints.pop().unwrap();
        proof {
            assert(before.last() == (id, dp));
            assert(datapoints@ =~= orig.take(orig.len() - reversed@.len() - 1));
        }
        let u = EntryUpdate::datapoint(Datapoint::from_wire(dp, now));
        let ghost prev = reversed@;
        reversed.push((id, u));
        proof {
            assert forall|k: int| 0 <= k < reversed@.len() implies #[trigger] updates_model(
                reversed@,
            )[k] == target[orig.len() - 1 - k] by {
                if k < prev.len() {
                    assert(updates_model(reversed@)[k] == updates_model(prev)[k]);
                }
            }
        }
    }
    let mut updates: Vec<(i32, EntryUpdate)> = Vec::new();
    while reversed.len() > 0
        invariant
            reversed@.len() + updates@.len() == orig.len(),
            target.len() == orig.len(),
            forall|k: int|
                0 <= k < reversed@.len() ==> #[trigger] updates_model(reversed@)[k] == target[orig.len()
                    - 1 - k],
            forall|k: int| 0 <= k < updates@.len() ==> #[trigger] updates_model(updates@)[k] == target[k],
        decreases reversed@.len(),
    {
        let ghost before = reversed@;
        let (id, u) = reversed.pop().unwrap();
        proof {
            assert(updates_model(before)[before.len() - 1] == (id, u@));
            assert forall|k: int| 0 <= k < reversed@.len() implies #[trigger] updates_model(
                reversed@,
            )[k] == target[orig.len() - 1 - k] by {
                assert(updates_model(reversed@)[k] == updates_model(before)[k]);
            }
        }
        let ghost prev = updates@;
        updates.push((id, u));
        proof {
            assert forall|k: int| 0 <= k < updates@.len() implies #[trigger] updates_model(
                updates@,
            )[k] == target[k] by {
                if k < prev.len() {
                    assert(updates_model(updates@)[k] == updates_model(prev)[k]);
                }
            }
        }
    }
    proof {
        assert(updates_model(updates@) =~= target);
    }
    let status = match store.update_entries(perms, updates, now) {
        Ok(_) => Vec::new(),
        Err(errors) => errors,
    };
    proof {
        assert(status@ =~= batch_step(old(store)@, perms@, target, now).1);
    }
    PublishValuesResponse { request_id, status }
}

/// Checks each offered path under `perms`: an unknown path gives
/// `NotFound`, one without an `Actuate` grant `PermissionDenied`, one that is
/// not an actuator `InvalidValue`. Returns the ids taken on and the response
/// listing the refused paths.
pub fn provided_actuation(
    store: &EntryStore,
    perms: &Permissions,
    request: &ProvideActuationRequest,
) -> (r: (Vec<i32>, ProvideActuationResponse))
    requires
        store.wf(),
    ensures
        r.0@ == actuation_ids(store@, perms@, paths_model(request.paths@)),
        errors_model(r.1.status@) == actuation_errors(store@, perms@, paths_model(request.paths@)),
{
    let ghost paths = paths_model(request.paths@);
    let mut ids: Vec<i32> = Vec::new();
    let mut status: Vec<(String, EntryError)> = Vec::new();
    let mut k: usize = 0;
    while k < request.paths.len()
        invariant
            store.wf(),
            k <= request.paths@.len(),
            paths == paths_model(request.paths@),
            ids@ == actuation_ids(store@, perms@, paths.take(k as int)),
            errors_model(status@) == actuation_errors(store@, perms@, paths.take(k as int)),
        decreases request.paths@.len() - k,
    {
        let path = &request.paths[k];
        proof {
            assert(paths.take(k as int + 1).drop_last() =~= paths.take(k as int));
            assert(paths.take(k as int + 1).last() == path@);
        }
        let check: Result<i32, EntryError> = match store.find_path(path) {
            None => Err(EntryError::NotFound),
            Some(i) => {
                proof {
                    let s = store@;
                    let j = choose|j: int| 0 <= j < s.entries.len() && #[trigger] s.entries[j].path == path@;
                    assert(s.entries[i as int].path == path@);
                    assert(j == i);
                }
                if !perms.allows(path.as_str(), AccessMode::Actuate) {
                    Err(EntryError::PermissionDenied)
                } else if store.entries[i].entry_type != EntryType::Actuator {
                    Err(EntryError::InvalidValue)
                } else {
                    Ok(store.entries[i].id)
                }
            },
        };
        proof {
            assert(check == actuation_check(store@, perms@, path@));
        }
        match check {
            Ok(id) => {
                ids.push(id);
            },
            Err(e) => {
                let ghost prev = status@;
                status.push((path.clone(), e));
                proof {
                    assert(errors_model(status@) =~= errors_model(prev).push((path@, e)));
                }
            },
        }
        k = k + 1;
    }
    proof {
        assert(paths.take(request.paths@.len() as int) =~= paths);
    }
    (ids, ProvideActuationResponse { status })
}

/// One provider's duplex stream: open until the stream ends, fails, or the
/// broker shuts down. Its grant is fixed when it opens.
pub struct ProviderSession {
    pub permissions: Permissions,
    pub open: bool,
    pub provided: Vec<i32>,
}

impl ProviderSession {
    /// Opens a session for a caller; without a grant the caller is
    /// `Unauthenticated`.
    pub fn open(permissions: Option<Permissions>) -> (r: Result<ProviderSession, RpcError>)
        ensures
            match permissions {
                None => r == Err::<ProviderSession, RpcError>(RpcError::Unauthenticated),
                Some(p) => r is Ok && r->Ok_0.open && r->Ok_0.permissions@ == p@
                    && r->Ok_0.provided@.len() == 0,
            },
    {
        match permissions {
            None => Err(RpcError::Unauthenticated),
            Some(p) => Ok(ProviderSession { permissions: p, open: true, provided: Vec::new() }),
        }
    }

    /// Handles the next event at broker time `now`. An open session answers a
    /// publication or an actuation offer with one response, ignores other
    /// messages, and closes on end of stream, transport error or shutdown. A
    /// closed session handles nothing and answers nothing.
    pub fn step(&mut self, store: &mut EntryStore, event: SessionEvent, now: u64) -> (r: Option<
        ProviderResponse,
    >)
        requires
            old(store).wf(),
        ensures
            final(store).wf(),
            final(self).permissions@ == old(self).permissions@,
            !old(self).open ==> r is None && final(store)@ == old(store)@ && !final(self).open
                && final(self).provided@ == old(self).provided@,
            old(self).open ==> match event {
                SessionEvent::Message(ProviderAction::PublishValues(req)) => {
                    let (s2, errs) = batch_step(
                        old(store)@,
                        old(self).permissions@,
                        publish_updates(req.datapoints@, now),
                        now,
                    );
                    &&& final(self).open
                    &&& final(self).provided@ == old(self).provided@
                    &&& final(store)@ == s2
                    &&& match r {
                        Some(ProviderResponse::PublishValues(p)) => p.request_id == req.request_id
                            && p.status@ == errs,
                        _ => false,
                    }
                },
                SessionEvent::Message(ProviderAction::ProvideActuation(req)) => {
                    let paths = paths_model(req.paths@);
                    &&& final(self).open
                    &&& final(store)@ == old(store)@
                    &&& final(self).provided@ == old(self).provided@ + actuation_ids(
                        old(store)@,
                        old(self).permissions@,
                        paths,
                    )
                    &&& match r {
                        Some(ProviderResponse::ProvideActuation(p)) => errors_model(p.status@)
                            == actuation_errors(old(store)@, old(self).permissions@, paths),
                        _ => false,
                    }
                },
                SessionEvent::Message(_) => {
                    &&& final(self).open
                    &&& r is None
                    &&& final(store)@ == old(store)@
                    &&& final(self).provided@ == old(self).provided@
                },
                _ => {
                    &&& !final(self).open
                    &&& r is None
                    &&& final(store)@ == old(store)@
                    &&& final(self).provided@ == old(self).provided@
                },
            },
    {
        if !self.open {
            return None;
        }
        match event {
            SessionEvent::Message(action) => match action {
                ProviderAction::PublishValues(req) => {
                    let resp = publish_values(store, &self.permissions, req, now);
                    Some(ProviderResponse::PublishValues(resp))
                },
                ProviderAction::ProvideActuation(req) => {
                    let (mut ids, resp) = provided_actuation(store, &self.permissions, &req);
                    self.provided.append(&mut ids);
                    Some(ProviderResponse::ProvideActuation(resp))
                },
                ProviderAction::BatchActuateStreamResponse => None,
                ProviderAction::Unset => None,
            },
            SessionEvent::StreamEnded | SessionEvent::TransportError | SessionEvent::Shutdown => {
                self.open = false;
                None
            },
        }
    }
}

} // verus!
