use vstd::prelude::*;
use std::collections::HashMap;
use crate::capability::Capability;
use crate::device::DeviceDesc;
use crate::device::DeviceKind;
use crate::errors::RequestError;
use crate::session::SessionEvent;
use crate::session::SessionState;
use crate::session::is_terminal;
use crate::session::step;
use crate::session::step_spec;
use crate::session::terminal;

verus! {

/// Which kind of file transfer a pending request is.
#[derive(Clone, Copy, Debug, PartialEq, Eq, Structural)]
pub enum TransferKind {
    Download,
    Upload,
    Read,
}

/// The single transfer that may be in flight for one device.
#[derive(Clone, Copy, Debug, PartialEq, Eq, Structural)]
pub struct PendingTransfer {
    pub kind: TransferKind,
    /// The caller-supplied context token, round-tripped to the completion
    /// so the caller can correlate it with the request.
    pub token: u64,
    /// The caller-registered completion handler the result is delivered
    /// to.
    pub handler: u64,
}

/// A completion delivered to a caller-registered handler: the handler, the
/// round-tripped context token, and the payload or the error.
#[derive(Clone, Copy, Debug, PartialEq, Eq)]
pub struct CompletionNotice {
    pub handler: u64,
    pub token: u64,
    pub result: Result<u64, RequestError>,
}

/// Everything the controller tracks for one discovered device. The record
/// lives from the discovery event to the end of the device's lifecycle;
/// it is never reused for a re-discovered device.
#[derive(Clone, Debug)]
pub struct DeviceEntry {
    pub desc: DeviceDesc,
    pub state: SessionState,
    /// Whether the per-device delegate registration is alive. It is
    /// released exactly once, when the record turns terminal — on session
    /// close or device removal, whichever comes first.
    pub delegate_registered: bool,
    /// The transfer in flight for this device, if any. Holding at most one
    /// is the controller's invariant: a second concurrent request is
    /// rejected, not queued.
    pub pending_transfer: Option<PendingTransfer>,
    /// Context tokens of cancelled transfers whose native completion has
    /// not arrived yet; a late completion for one of these is swallowed.
    pub cancelled: Vec<u64>,
}

impl DeviceEntry {
    /// Well-formedness of one record: the description is well formed, the
    /// delegate is alive exactly while the record is not terminal, and a
    /// removed device has no pending transfer.
    pub open spec fn wf(self) -> bool {
        &&& self.desc.wf()
        &&& self.delegate_registered == !is_terminal(self.state)
        &&& self.state is Removed ==> self.pending_transfer is None
    }
}

/// What the embedding layer must do right after a discovery event was
/// accepted.
#[derive(Clone, Copy, Debug, PartialEq, Eq, Structural)]
pub struct AddOutcome {
    /// Issue a native open-session request now. Set exactly for
    /// camera-type devices, which the controller auto-opens.
    pub issue_open_session: bool,
    /// Whether deferred, expensive caller work (such as a UI refresh) is
    /// due now: set when the native layer hinted that no more devices are
    /// coming in this batch. The device itself is registered regardless.
    pub refresh_now: bool,
}

/// The caller-visible meaning of one session event.
#[derive(Clone, Copy, Debug, PartialEq, Eq, Structural)]
pub enum SessionNotice {
    /// The session opened; the device is ready.
    DeviceReady,
    /// The open request failed with a native error; the caller may retry.
    OpenFailed { code: i64 },
    /// The session closed, with the native error code if the close failed.
    SessionClosed { error: Option<i64> },
    /// The device is gone; its handle is invalid from now on.
    DeviceGone,
    /// A late or out-of-place event that does not fit the device's state;
    /// it changes nothing and is not delivered.
    Stale,
}

/// What the embedding layer must do after one session event.
#[derive(Clone, Copy, Debug, PartialEq, Eq)]
pub struct SessionOutcome {
    /// What to tell the caller.
    pub notice: SessionNotice,
    /// Release the per-device delegate registration now. The controller
    /// sets this exactly once per record, when it turns terminal.
    pub release_delegate: bool,
    /// A transfer aborted by removal, to be completed with an error
    /// through the normal completion path rather than leaked.
    pub aborted_transfer: Option<CompletionNotice>,
}

/// The caller-visible notice for the event `e` arriving in state `s`.
pub open spec fn notice_spec(s: SessionState, e: SessionEvent) -> SessionNotice {
    match e {
        SessionEvent::DeviceRemoved => SessionNotice::DeviceGone,
        SessionEvent::OpenedOk => if s is Opening {
            SessionNotice::DeviceReady
        } else {
            SessionNotice::Stale
        },
        SessionEvent::OpenedErr { code } => if s is Opening {
            SessionNotice::OpenFailed { code }
        } else {
            SessionNotice::Stale
        },
        SessionEvent::ClosedOk => if s is Closing || s is Open {
            SessionNotice::SessionClosed { error: None }
        } else {
            SessionNotice::Stale
        },
        SessionEvent::ClosedErr { code } => if s is Closing || s is Open {
            SessionNotice::SessionClosed { error: Some(code) }
        } else {
            SessionNotice::Stale
        },
    }
}

/// The caller-visible notice for the event `e` arriving in state `s`.
fn notice_for(s: SessionState, e: SessionEvent) -> (r: SessionNotice)
    ensures
        r == notice_spec(s, e),
{
    match e {
        SessionEvent::DeviceRemoved => SessionNotice::DeviceGone,
        SessionEvent::OpenedOk => if s == SessionState::Opening {
            SessionNotice::DeviceReady
        } else {
            SessionNotice::Stale
        },
        SessionEvent::OpenedErr { code } => if s == SessionState::Opening {
            SessionNotice::OpenFailed { code }
        } else {
            SessionNotice::Stale
        },
        SessionEvent::ClosedOk => if s == SessionState::Closing || s == SessionState::Open {
            SessionNotice::SessionClosed { error: None }
        } else {
            SessionNotice::Stale
        },
        SessionEvent::ClosedErr { code } => if s == SessionState::Closing || s
            == SessionState::Open {
            SessionNotice::SessionClosed { error: Some(code) }
        } else {
            SessionNotice::Stale
        },
    }
}

/// The session-and-browser controller. It exclusively owns the map from
/// device identity to per-device record, and it must only ever be touched
/// from the designated main thread: the embedding layer marshals every
/// caller and every native callback onto that thread before calling in.
pub struct Controller {
    pub devices: HashMap<u64, DeviceEntry>,
}

impl Controller {
    /// Well-formedness: every record in the map is well formed.
    pub open spec fn wf(self) -> bool {
        forall|id: u64|
            self.devices@.contains_key(id) ==> (#[trigger] self.devices@[id]).wf()
    }

    /// A fresh controller that tracks no devices.
    pub fn new() -> (r: Self)
        ensures
            r.wf(),
            r.devices@ == Map::<u64, DeviceEntry>::empty(),
    {
        Controller { devices: HashMap::new() }
    }

    /// Whether a device with this identity is tracked.
    pub fn contains_device(&self, id: u64) -> (r: bool)
        ensures
            r == self.devices@.contains_key(id),
    {
        self.devices.contains_key(&id)
    }

    /// The tracked session state of a device, if it is tracked.
    pub fn device_state(&self, id: u64) -> (r: Option<SessionState>)
        ensures
            match r {
                Some(s) => self.devices@.contains_key(id) && s == self.devices@[id].state,
                None => !self.devices@.contains_key(id),
            },
    {
        match self.devices.get(&id) {
            Some(e) => Some(e.state),
            None => None,
        }
    }

    /// Whether a tracked device currently has an open session.
    pub fn has_open_session(&self, id: u64) -> (r: bool)
        ensures
            r == (self.devices@.contains_key(id) && self.devices@[id].state is Open),
    {
        match self.devices.get(&id) {
            Some(e) => e.state == SessionState::Open,
            None => false,
        }
    }

    /// Consume a discovery event.
    ///
    /// A fresh identity is registered before anything else — in particular
    /// before the batching hint is even looked at — with its per-device
    /// delegate alive; a camera-type device is auto-opened right away,
    /// any other kind waits in `Discovered` for an explicit open. An
    /// identity that is already tracked means a second delegate
    /// registration for the same device: that is a conflict, reported and
    /// not merged, and the map is left alone.
    pub fn on_device_added(&mut self, id: u64, desc: DeviceDesc, more_coming: bool) -> (r: Result<
        AddOutcome,
        RequestError,
    >)
        requires
            old(self).wf(),
            desc.wf(),
        ensures
            final(self).wf(),
            old(self).devices@.contains_key(id) ==> r == Err::<AddOutcome, RequestError>(
                RequestError::RegistrationConflict,
            ) && final(self).devices@ == old(self).devices@,
            !old(self).devices@.contains_key(id) ==> {
                &&& r == Ok::<AddOutcome, RequestError>(
                    (AddOutcome {
                        issue_open_session: desc.kind is Camera,
                        refresh_now: !more_coming,
                    }),
                )
                &&& final(self).devices@ == old(self).devices@.insert(
                    id,
                    final(self).devices@[id],
                )
                &&& final(self).devices@[id].desc == desc
                &&& final(self).devices@[id].state == (if desc.kind is Camera {
                    SessionState::Opening
                } else {
                    SessionState::Discovered
                })
                &&& final(self).devices@[id].delegate_registered
                &&& final(self).devices@[id].pending_transfer is None
                &&& final(self).devices@[id].cancelled@ == Seq::<u64>::empty()
            },
    {
        if self.devices.contains_key(&id) {
            return Err(RequestError::RegistrationConflict);
        }
        let is_camera = desc.kind == DeviceKind::Camera;
        let entry = DeviceEntry {
            desc,
            state: if is_camera {
                SessionState::Opening
            } else {
                SessionState::Discovered
            },
            delegate_registered: true,
            pending_transfer: None,
            cancelled: Vec::new(),
        };
        self.devices.insert(id, entry);
        Ok(AddOutcome { issue_open_session: is_camera, refresh_now: !more_coming })
    }

    /// Consume one native session event for the device `id`: removal, an
    /// open confirmation or failure, or a close confirmation or failure.
    ///
    /// The record's state moves exactly as the per-device state machine
    /// (`step_spec`) says, so removal is terminal and stale events change
    /// nothing. When the record turns terminal its delegate registration
    /// is released, exactly once. Removal also aborts a pending transfer:
    /// the transfer's completion is handed back as an error rather than
    /// leaked. An event for an untracked identity is reported as an
    /// invalid handle.
    pub fn on_session_event(&mut self, id: u64, e: SessionEvent) -> (r: Result<
        SessionOutcome,
        RequestError,
    >)
        requires
            old(self).wf(),
        ensures
            final(self).wf(),
            !old(self).devices@.contains_key(id) ==> r == Err::<SessionOutcome, RequestError>(
                RequestError::InvalidHandle,
            ) && final(self).devices@ == old(self).devices@,
            old(self).devices@.contains_key(id) ==> {
                let prev = old(self).devices@[id];
                let next = final(self).devices@[id];
                &&& final(self).devices@ == old(self).devices@.insert(id, next)
                &&& next.state == step_spec(prev.state, e)
                &&& next.desc == prev.desc
                &&& next.cancelled@ == prev.cancelled@
                &&& next.delegate_registered == !is_terminal(next.state)
                &&& (e is DeviceRemoved ==> next.pending_transfer is None)
                &&& (!(e is DeviceRemoved) ==> next.pending_transfer == prev.pending_transfer)
                &&& r == Ok::<SessionOutcome, RequestError>(
                    (SessionOutcome {
                        notice: notice_spec(prev.state, e),
                        release_delegate: prev.delegate_registered && is_terminal(next.state),
                        aborted_transfer: if e is DeviceRemoved {
                            match prev.pending_transfer {
                                Some(p) => Some(
                                    CompletionNotice {
                                        handler: p.handler,
                                        token: p.token,
                                        result: Err(RequestError::InvalidHandle),
                                    },
                                ),
                                None => None,
                            }
                        } else {
                            None
                        },
                    }),
                )
            },
    {
        let ghost prior = self.devices@;
        match self.devices.remove(&id) {
            None => {
                proof {
                    assert(prior.remove(id) =~= prior);
                }
                Err(RequestError::InvalidHandle)
            },
            Some(mut entry) => {
                let prev_state = entry.state;
                let was_registered = entry.delegate_registered;
                entry.state = step(prev_state, e);
                let now_terminal = terminal(entry.state);
                entry.delegate_registered = !now_terminal;
                let release_delegate = was_registered && now_terminal;
                let mut aborted_transfer: Option<CompletionNotice> = None;
                if let SessionEvent::DeviceRemoved = e {
                    if let Some(p) = entry.pending_transfer {
                        aborted_transfer = Some(
                            CompletionNotice {
                                handler: p.handler,
                                token: p.token,
                                result: Err(RequestError::InvalidHandle),
                            },
                        );
                    }
                    entry.pending_transfer = None;
                }
                let notice = notice_for(prev_state, e);
                let ghost updated = entry;
                self.devices.insert(id, entry);
                proof {
                    assert(self.devices@ =~= prior.insert(id, updated));
                }
                Ok(SessionOutcome { notice, release_delegate, aborted_transfer })
            },
        }
    }
}

/// Whether `list` holds `token`.
fn token_listed(list: &Vec<u64>, token: u64) -> (r: bool)
    ensures
        r == list@.contains(token),
{
    let mut i: usize = 0;
    while i < list.len()
        invariant
            i <= list@.len(),
            forall|j: int| 0 <= j < i ==> list@[j] != token,
        decreases list@.len() - i,
    {
        if list[i] == token {
            return true;
        }
        i = i + 1;
    }
    proof {
        assert(!list@.contains(token));
    }
    false
}

/// The predicate satisfied by every token other than `token`.
pub open spec fn keeps_other_tokens(token: u64) -> spec_fn(u64) -> bool {
    |x: u64| x != token
}

/// `list` without any occurrence of `token`, in the original order.
fn drop_token(list: &Vec<u64>, token: u64) -> (r: Vec<u64>)
    ensures
        r@ == list@.filter(keeps_other_tokens(token)),
{
    let mut out: Vec<u64> = Vec::new();
    let mut i: usize = 0;
    while i < list.len()
        invariant
            i <= list@.len(),
            out@ == list@.take(i as int).filter(keeps_other_tokens(token)),
        decreases list@.len() - i,
    {
        let x = list[i];
        if x != token {
            out.push(x);
        }
        proof {
            reveal(Seq::filter);
            assert(list@.take(i as int + 1).drop_last() =~= list@.take(i as int));
            assert(list@.take(i as int + 1).last() == x);
        }
        i = i + 1;
    }
    proof {
        assert(list@.take(list@.len() as int) =~= list@);
    }
    out
}

/// Whether `id` names a record whose handle is still usable: tracked, and
/// not invalidated by a removal.
pub open spec fn handle_usable(m: Map<u64, DeviceEntry>, id: u64) -> bool {
    m.contains_key(id) && !(m[id].state is Removed)
}

/// The contract of a fire-and-forget request that needs nothing but a
/// usable handle: `Ok` means the embedding layer issues the native call.
pub open spec fn plain_request_spec(
    m: Map<u64, DeviceEntry>,
    id: u64,
    r: Result<(), RequestError>,
) -> bool {
    if handle_usable(m, id) {
        r is Ok
    } else {
        r == Err::<(), RequestError>(RequestError::InvalidHandle)
    }
}

/// The contract of a fire-and-forget request gated on a capability tag:
/// without the tag the request is a caller error, reported before any
/// native call; with it, `Ok` means the embedding layer issues the call.
pub open spec fn gated_request_spec(
    m: Map<u64, DeviceEntry>,
    id: u64,
    cap: Capability,
    r: Result<(), RequestError>,
) -> bool {
    if !handle_usable(m, id) {
        r == Err::<(), RequestError>(RequestError::InvalidHandle)
    } else if m[id].desc.capabilities.spec_has(cap) {
        r is Ok
    } else {
        r == Err::<(), RequestError>(RequestError::CapabilityMissing)
    }
}

/// How an accepted or rejected transfer request relates the device map
/// before and after: the shared contract of the download, upload and read
/// requests. A request on an unusable handle or while another transfer is
/// pending is rejected and changes nothing — in particular, no native call
/// is issued for it. An accepted request records the pending transfer and
/// retires its context token from the cancelled list, since the token now
/// names a live request.
pub open spec fn transfer_request_spec(
    pre: Map<u64, DeviceEntry>,
    post: Map<u64, DeviceEntry>,
    id: u64,
    kind: TransferKind,
    token: u64,
    handler: u64,
    r: Result<(), RequestError>,
) -> bool {
    &&& !handle_usable(pre, id) ==> r == Err::<(), RequestError>(RequestError::InvalidHandle)
        && post == pre
    &&& handle_usable(pre, id) && pre[id].pending_transfer is Some ==> r == Err::<
        (),
        RequestError,
    >(RequestError::ConcurrentRequestRejected) && post == pre
    &&& handle_usable(pre, id) && pre[id].pending_transfer is None ==> {
        let prev = pre[id];
        &&& r is Ok
        &&& post.contains_key(id)
        &&& post == pre.insert(id, post[id])
        &&& post[id].pending_transfer == Some(PendingTransfer { kind, token, handler })
        &&& post[id].state == prev.state
        &&& post[id].desc == prev.desc
        &&& post[id].delegate_registered == prev.delegate_registered
        &&& post[id].cancelled@ == prev.cancelled@.filter(keeps_other_tokens(token))
    }
}

/// What the controller decided about one native transfer completion or
/// watchdog expiry.
#[derive(Clone, Copy, Debug, PartialEq, Eq)]
pub enum TransferDelivery {
    /// Run the caller's handler with this completion.
    Notify { notice: CompletionNotice },
    /// The request was cancelled earlier; the late completion is swallowed
    /// and no handler runs.
    Swallowed,
    /// Nothing matches the context token; the embedding layer must log the
    /// completion rather than drop it silently.
    Unmatched,
}

impl Controller {
    /// Ask to open a session to the device.
    ///
    /// `Ok(true)` means the record moved to `Opening` and the embedding
    /// layer issues the native open request now; the confirmation comes
    /// back as a session event. Opening an already-open session is a
    /// no-op reported as `Ok(false)`. While an open or close is already in
    /// flight a second request is rejected; a terminal record — removed,
    /// or closed out — no longer accepts one.
    pub fn request_open_session(&mut self, id: u64) -> (r: Result<bool, RequestError>)
        requires
            old(self).wf(),
        ensures
            final(self).wf(),
            ({
                let pre = old(self).devices@;
                let post = final(self).devices@;
                &&& (!pre.contains_key(id) || is_terminal(pre[id].state)) ==> r == Err::<
                    bool,
                    RequestError,
                >(RequestError::InvalidHandle) && post == pre
                &&& pre.contains_key(id) && (pre[id].state is Opening || pre[id].state is Closing)
                    ==> r == Err::<bool, RequestError>(RequestError::ConcurrentRequestRejected)
                    && post == pre
                &&& pre.contains_key(id) && pre[id].state is Open ==> r == Ok::<
                    bool,
                    RequestError,
                >(false) && post == pre
                &&& pre.contains_key(id) && pre[id].state is Discovered ==> r == Ok::<
                    bool,
                    RequestError,
                >(true) && post == pre.insert(
                    id,
                    (DeviceEntry { state: SessionState::Opening, ..pre[id] }),
                )
            }),
    {
        let ghost prior = self.devices@;
        match self.devices.remove(&id) {
            None => {
                proof {
                    assert(prior.remove(id) =~= prior);
                }
                Err(RequestError::InvalidHandle)
            },
            Some(mut entry) => {
                let r = match entry.state {
                    SessionState::Removed => Err(RequestError::InvalidHandle),
                    SessionState::Closed => Err(RequestError::InvalidHandle),
                    SessionState::Opening => Err(RequestError::ConcurrentRequestRejected),
                    SessionState::Closing => Err(RequestError::ConcurrentRequestRejected),
                    SessionState::Open => Ok(false),
                    SessionState::Discovered => {
                        entry.state = SessionState::Opening;
                        Ok(true)
                    },
                };
                let ghost updated = entry;
                self.devices.insert(id, entry);
                proof {
                    if updated == prior[id] {
                        assert(self.devices@ =~= prior);
                    } else {
                        assert(self.devices@ =~= prior.insert(id, updated));
                    }
                }
                r
            },
        }
    }

    /// Ask to close the device's session.
    ///
    /// `Ok(true)` means the record moved to `Closing` and the embedding
    /// layer issues the native close request now. Closing a device whose
    /// session is already closed — or was never opened — is a no-op
    /// reported as success, `Ok(false)`. While an open or close is in
    /// flight a second request is rejected; a removed device no longer
    /// accepts one.
    pub fn request_close_session(&mut self, id: u64) -> (r: Result<bool, RequestError>)
        requires
            old(self).wf(),
        ensures
            final(self).wf(),
            ({
                let pre = old(self).devices@;
                let post = final(self).devices@;
                &&& (!pre.contains_key(id) || pre[id].state is Removed) ==> r == Err::<
                    bool,
                    RequestError,
                >(RequestError::InvalidHandle) && post == pre
                &&& pre.contains_key(id) && (pre[id].state is Closed
                    || pre[id].state is Discovered) ==> r == Ok::<bool, RequestError>(false)
                    && post == pre
                &&& pre.contains_key(id) && (pre[id].state is Opening || pre[id].state is Closing)
                    ==> r == Err::<bool, RequestError>(RequestError::ConcurrentRequestRejected)
                    && post == pre
                &&& pre.contains_key(id) && pre[id].state is Open ==> r == Ok::<
                    bool,
                    RequestError,
                >(true) && post == pre.insert(
                    id,
                    (DeviceEntry { state: SessionState::Closing, ..pre[id] }),
                )
            }),
    {
        let ghost prior = self.devices@;
        match self.devices.remove(&id) {
            None => {
                proof {
                    assert(prior.remove(id) =~= prior);
                }
                Err(RequestError::InvalidHandle)
            },
            Some(mut entry) => {
                let r = match entry.state {
                    SessionState::Removed => Err(RequestError::InvalidHandle),
                    SessionState::Closed => Ok(false),
                    SessionState::Discovered => Ok(false),
                    SessionState::Opening => Err(RequestError::ConcurrentRequestRejected),
                    SessionState::Closing => Err(RequestError::ConcurrentRequestRejected),
                    SessionState::Open => {
                        entry.state = SessionState::Closing;
                        Ok(true)
                    },
                };
                let ghost updated = entry;
                self.devices.insert(id, entry);
                proof {
                    if updated == prior[id] {
                        assert(self.devices@ =~= prior);
                    } else {
                        assert(self.devices@ =~= prior.insert(id, updated));
                    }
                }
                r
            },
        }
    }

    /// The shared body of the fire-and-forget requests that need nothing
    /// but a usable handle.
    fn check_plain_request(&self, id: u64) -> (r: Result<(), RequestError>)
        ensures
            plain_request_spec(self.devices@, id, r),
    {
        match self.devices.get(&id) {
            Some(e) => if e.state == SessionState::Removed {
                Err(RequestError::InvalidHandle)
            } else {
                Ok(())
            },
            None => Err(RequestError::InvalidHandle),
        }
    }

    /// The shared body of the fire-and-forget requests gated on one
    /// capability tag.
    fn check_gated_request(&self, id: u64, cap: Capability) -> (r: Result<(), RequestError>)
        ensures
            gated_request_spec(self.devices@, id, cap, r),
    {
        match self.devices.get(&id) {
            Some(e) => if e.state == SessionState::Removed {
                Err(RequestError::InvalidHandle)
            } else if e.desc.capabilities.has(cap) {
                Ok(())
            } else {
                Err(RequestError::CapabilityMissing)
            },
            None => Err(RequestError::InvalidHandle),
        }
    }

    /// Ask the camera to synchronize its clock with the host's. Valid only
    /// for a device with the clock-sync capability: without it the request
    /// is reported as a caller error and no native call is made.
    pub fn request_sync_clock(&self, id: u64) -> (r: Result<(), RequestError>)
        ensures
            gated_request_spec(self.devices@, id, Capability::SyncClock, r),
    {
        self.check_gated_request(id, Capability::SyncClock)
    }

    /// Ask the camera to enable tethered capture. Valid only for a device
    /// with the take-picture capability: without it the request is
    /// reported as a caller error and no native call is made.
    pub fn request_enable_tethering(&self, id: u64) -> (r: Result<(), RequestError>)
        ensures
            gated_request_spec(self.devices@, id, Capability::TakePicture, r),
    {
        self.check_gated_request(id, Capability::TakePicture)
    }

    /// Ask the camera to disable tethered capture. Gated like enabling it.
    pub fn request_disable_tethering(&self, id: u64) -> (r: Result<(), RequestError>)
        ensures
            gated_request_spec(self.devices@, id, Capability::TakePicture, r),
    {
        self.check_gated_request(id, Capability::TakePicture)
    }

    /// Ask the camera to capture a picture. Valid only for a device with
    /// the take-picture capability.
    pub fn request_take_picture(&self, id: u64) -> (r: Result<(), RequestError>)
        ensures
            gated_request_spec(self.devices@, id, Capability::TakePicture, r),
    {
        self.check_gated_request(id, Capability::TakePicture)
    }

    /// Ask the device to eject its media or disconnect. `Ok` means the
    /// embedding layer issues the native call now; the removal event that
    /// follows invalidates the handle.
    pub fn request_eject_or_disconnect(&self, id: u64) -> (r: Result<(), RequestError>)
        ensures
            plain_request_spec(self.devices@, id, r),
    {
        self.check_plain_request(id)
    }

    /// Ask the device to yield to another process.
    pub fn request_yield(&self, id: u64) -> (r: Result<(), RequestError>)
        ensures
            plain_request_spec(self.devices@, id, r),
    {
        self.check_plain_request(id)
    }

    /// Ask the camera to delete the files named in `files`. `Ok` means the
    /// embedding layer issues the native delete for exactly those files.
    pub fn request_delete_files(&self, id: u64, files: &Vec<u64>) -> (r: Result<(), RequestError>)
        ensures
            plain_request_spec(self.devices@, id, r),
    {
        let _ = files;
        self.check_plain_request(id)
    }

    /// Abort the current delete operation, best-effort: the native layer
    /// may have finished already.
    pub fn cancel_delete(&self, id: u64) -> (r: Result<(), RequestError>)
        ensures
            plain_request_spec(self.devices@, id, r),
    {
        self.check_plain_request(id)
    }

    /// Ask the camera to execute a PTP command; its reply is routed by the
    /// embedding layer straight to the handler given here.
    pub fn request_send_ptp_command(&self, id: u64, token: u64, handler: u64) -> (r: Result<
        (),
        RequestError,
    >)
        ensures
            plain_request_spec(self.devices@, id, r),
    {
        let _ = token;
        let _ = handler;
        self.check_plain_request(id)
    }

    /// Decide whether a content-catalog-ready event is delivered to the
    /// caller: only for a tracked device whose session is open; anything
    /// else is stale.
    pub fn on_content_catalog_ready(&self, id: u64) -> (deliver: bool)
        ensures
            deliver == (self.devices@.contains_key(id) && self.devices@[id].state is Open),
    {
        self.has_open_session(id)
    }

    /// Record a transfer request if the handle is usable and no transfer
    /// is pending for the device.
    fn begin_transfer(&mut self, id: u64, kind: TransferKind, token: u64, handler: u64) -> (r:
        Result<(), RequestError>)
        requires
            old(self).wf(),
        ensures
            final(self).wf(),
            transfer_request_spec(
                old(self).devices@,
                final(self).devices@,
                id,
                kind,
                token,
                handler,
                r,
            ),
    {
        let ghost prior = self.devices@;
        match self.devices.remove(&id) {
            None => {
                proof {
                    assert(prior.remove(id) =~= prior);
                }
                Err(RequestError::InvalidHandle)
            },
            Some(mut entry) => {
                if entry.state == SessionState::Removed {
                    self.devices.insert(id, entry);
                    proof {
                        assert(self.devices@ =~= prior);
                    }
                    return Err(RequestError::InvalidHandle);
                }
                if entry.pending_transfer.is_some() {
                    self.devices.insert(id, entry);
                    proof {
                        assert(self.devices@ =~= prior);
                    }
                    return Err(RequestError::ConcurrentRequestRejected);
                }
                entry.pending_transfer = Some(PendingTransfer { kind, token, handler });
                let trimmed = drop_token(&entry.cancelled, token);
                entry.cancelled = trimmed;
                let ghost updated = entry;
                self.devices.insert(id, entry);
                proof {
                    assert(self.devices@ =~= prior.insert(id, updated));
                }
                Ok(())
            },
        }
    }

    /// Ask to download a file from the device. `Ok` means the embedding
    /// layer issues the native download request for `file` now; the
    /// completion later comes back under the same context token.
    pub fn request_download_file(&mut self, id: u64, file: u64, token: u64, handler: u64) -> (r:
        Result<(), RequestError>)
        requires
            old(self).wf(),
        ensures
            final(self).wf(),
            transfer_request_spec(
                old(self).devices@,
                final(self).devices@,
                id,
                TransferKind::Download,
                token,
                handler,
                r,
            ),
    {
        let _ = file;
        self.begin_transfer(id, TransferKind::Download, token, handler)
    }

    /// Ask to upload the file at `file_url` to the device. `Ok` means the
    /// embedding layer issues the native upload request now.
    pub fn request_upload_file(
        &mut self,
        id: u64,
        file_url: &Vec<u32>,
        token: u64,
        handler: u64,
    ) -> (r: Result<(), RequestError>)
        requires
            old(self).wf(),
        ensures
            final(self).wf(),
            transfer_request_spec(
                old(self).devices@,
                final(self).devices@,
                id,
                TransferKind::Upload,
                token,
                handler,
                r,
            ),
    {
        let _ = file_url;
        self.begin_transfer(id, TransferKind::Upload, token, handler)
    }

    /// Ask to read `length` bytes at `offset` from a file on the device.
    /// `Ok` means the embedding layer issues the native read request now.
    pub fn request_read_data_from_file(
        &mut self,
        id: u64,
        file: u64,
        offset: u64,
        length: u64,
        token: u64,
        handler: u64,
    ) -> (r: Result<(), RequestError>)
        requires
            old(self).wf(),
        ensures
            final(self).wf(),
            transfer_request_spec(
                old(self).devices@,
                final(self).devices@,
                id,
                TransferKind::Read,
                token,
                handler,
                r,
            ),
    {
        let _ = file;
        let _ = offset;
        let _ = length;
        self.begin_transfer(id, TransferKind::Read, token, handler)
    }

    /// Abort the in-flight download for this device, if there is one.
    ///
    /// `Ok(true)` means a download was pending: its context token moves to
    /// the cancelled list — a native completion that still arrives for it
    /// will be swallowed — and the embedding layer issues the native
    /// cancel now. `Ok(false)` means nothing was in flight and nothing
    /// changed; cancellation is best-effort and idempotent.
    pub fn cancel_download(&mut self, id: u64) -> (r: Result<bool, RequestError>)
        requires
            old(self).wf(),
        ensures
            final(self).wf(),
            !handle_usable(old(self).devices@, id) ==> r == Err::<bool, RequestError>(
                RequestError::InvalidHandle,
            ) && final(self).devices@ == old(self).devices@,
            handle_usable(old(self).devices@, id) ==> {
                let prev = old(self).devices@[id];
                match prev.pending_transfer {
                    Some(p) => if p.kind is Download {
                        &&& r == Ok::<bool, RequestError>(true)
                        &&& final(self).devices@ == old(self).devices@.insert(
                            id,
                            final(self).devices@[id],
                        )
                        &&& final(self).devices@[id] == (DeviceEntry {
                            pending_transfer: None,
                            cancelled: final(self).devices@[id].cancelled,
                            ..prev
                        })
                        &&& final(self).devices@[id].cancelled@ == prev.cancelled@.push(p.token)
                    } else {
                        r == Ok::<bool, RequestError>(false) && final(self).devices@ == old(
                            self,
                        ).devices@
                    },
                    None => r == Ok::<bool, RequestError>(false) && final(self).devices@ == old(
                        self,
                    ).devices@,
                }
            },
    {
        let ghost prior = self.devices@;
        match self.devices.remove(&id) {
            None => {
                proof {
                    assert(prior.remove(id) =~= prior);
                }
                Err(RequestError::InvalidHandle)
            },
            Some(mut entry) => {
                if entry.state == SessionState::Removed {
                    self.devices.insert(id, entry);
                    proof {
                        assert(self.devices@ =~= prior);
                    }
                    return Err(RequestError::InvalidHandle);
                }
                let cancelled_now = match &entry.pending_transfer {
                    Some(p) => if p.kind == TransferKind::Download {
                        let token = p.token;
                        entry.pending_transfer = None;
                        entry.cancelled.push(token);
                        true
                    } else {
                        false
                    },
                    None => false,
                };
                let ghost updated = entry;
                self.devices.insert(id, entry);
                proof {
                    if cancelled_now {
                        assert(self.devices@ =~= prior.insert(id, updated));
                    } else {
                        assert(self.devices@ =~= prior);
                    }
                }
                Ok(cancelled_now)
            },
        }
    }

    /// Consume one native transfer completion for the context token
    /// `token`: the payload on success, or the decoded native error code.
    ///
    /// A completion whose token was cancelled earlier is swallowed — the
    /// caller sees nothing, and the token is retired. A completion that
    /// matches the pending transfer clears it and is delivered to the
    /// handler that was registered with the request, a native error
    /// arriving as `NativeCallFailed`. Anything else matches no request
    /// and must be logged by the embedding layer.
    pub fn on_transfer_completed(&mut self, id: u64, token: u64, native: Result<u64, i64>) -> (r:
        Result<TransferDelivery, RequestError>)
        requires
            old(self).wf(),
        ensures
            final(self).wf(),
            !old(self).devices@.contains_key(id) ==> r == Err::<TransferDelivery, RequestError>(
                RequestError::InvalidHandle,
            ) && final(self).devices@ == old(self).devices@,
            old(self).devices@.contains_key(id) ==> {
                let prev = old(self).devices@[id];
                &&& prev.cancelled@.contains(token) ==> {
                    &&& r == Ok::<TransferDelivery, RequestError>(TransferDelivery::Swallowed)
                    &&& final(self).devices@ == old(self).devices@.insert(
                        id,
                        final(self).devices@[id],
                    )
                    &&& final(self).devices@[id] == (DeviceEntry {
                        cancelled: final(self).devices@[id].cancelled,
                        ..prev
                    })
                    &&& final(self).devices@[id].cancelled@ == prev.cancelled@.filter(
                        keeps_other_tokens(token),
                    )
                }
                &&& !prev.cancelled@.contains(token) ==> match prev.pending_transfer {
                    Some(p) => if p.token == token {
                        &&& r == Ok::<TransferDelivery, RequestError>(
                            (TransferDelivery::Notify {
                                notice: (CompletionNotice {
                                    handler: p.handler,
                                    token,
                                    result: match native {
                                        Ok(payload) => Ok(payload),
                                        Err(code) => Err(RequestError::NativeCallFailed { code }),
                                    },
                                }),
                            }),
                        )
                        &&& final(self).devices@ == old(self).devices@.insert(
                            id,
                            (DeviceEntry { pending_transfer: None, ..prev }),
                        )
                    } else {
                        r == Ok::<TransferDelivery, RequestError>(TransferDelivery::Unmatched)
                            && final(self).devices@ == old(self).devices@
                    },
                    None => r == Ok::<TransferDelivery, RequestError>(TransferDelivery::Unmatched)
                        && final(self).devices@ == old(self).devices@,
                }
            },
    {
        let ghost prior = self.devices@;
        match self.devices.remove(&id) {
            None => {
                proof {
                    assert(prior.remove(id) =~= prior);
                }
                Err(RequestError::InvalidHandle)
            },
            Some(mut entry) => {
                if token_listed(&entry.cancelled, token) {
                    let trimmed = drop_token(&entry.cancelled, token);
                    entry.cancelled = trimmed;
                    let ghost updated = entry;
                    self.devices.insert(id, entry);
                    proof {
                        assert(self.devices@ =~= prior.insert(id, updated));
                    }
                    return Ok(TransferDelivery::Swallowed);
                }
                let delivery = match &entry.pending_transfer {
                    Some(p) => if p.token == token {
                        let handler = p.handler;
                        entry.pending_transfer = None;
                        TransferDelivery::Notify {
                            notice: CompletionNotice {
                                handler,
                                token,
                                result: match native {
                                    Ok(payload) => Ok(payload),
                                    Err(code) => Err(RequestError::NativeCallFailed { code }),
                                },
                            },
                        }
                    } else {
                        TransferDelivery::Unmatched
                    },
                    None => TransferDelivery::Unmatched,
                };
                let ghost updated = entry;
                self.devices.insert(id, entry);
                proof {
                    if delivery is Unmatched {
                        assert(self.devices@ =~= prior);
                    } else {
                        assert(self.devices@ =~= prior.insert(id, updated));
                    }
                }
                Ok(delivery)
            },
        }
    }

    /// Consume a watchdog expiry for the context token `token`.
    ///
    /// If the token still names the pending transfer, the controller
    /// synthesizes a timeout and delivers it through the same completion
    /// path a real completion would take; otherwise the expiry matches
    /// nothing and changes nothing.
    pub fn on_watchdog_expired(&mut self, id: u64, token: u64) -> (r: Result<
        TransferDelivery,
        RequestError,
    >)
        requires
            old(self).wf(),
        ensures
            final(self).wf(),
            !old(self).devices@.contains_key(id) ==> r == Err::<TransferDelivery, RequestError>(
                RequestError::InvalidHandle,
            ) && final(self).devices@ == old(self).devices@,
            old(self).devices@.contains_key(id) ==> {
                let prev = old(self).devices@[id];
                match prev.pending_transfer {
                    Some(p) => if p.token == token {
                        &&& r == Ok::<TransferDelivery, RequestError>(
                            (TransferDelivery::Notify {
                                notice: (CompletionNotice {
                                    handler: p.handler,
                                    token,
                                    result: Err(RequestError::Timeout),
                                }),
                            }),
                        )
                        &&& final(self).devices@ == old(self).devices@.insert(
                            id,
                            (DeviceEntry { pending_transfer: None, ..prev }),
                        )
                    } else {
                        r == Ok::<TransferDelivery, RequestError>(TransferDelivery::Unmatched)
                            && final(self).devices@ == old(self).devices@
                    },
                    None => r == Ok::<TransferDelivery, RequestError>(TransferDelivery::Unmatched)
                        && final(self).devices@ == old(self).devices@,
                }
            },
    {
        let ghost prior = self.devices@;
        match self.devices.remove(&id) {
            None => {
                proof {
                    assert(prior.remove(id) =~= prior);
                }
                Err(RequestError::InvalidHandle)
            },
            Some(mut entry) => {
                let delivery = match &entry.pending_transfer {
                    Some(p) => if p.token == token {
                        let handler = p.handler;
                        entry.pending_transfer = None;
                        TransferDelivery::Notify {
                            notice: CompletionNotice {
                                handler,
                                token,
                                result: Err(RequestError::Timeout),
                            },
                        }
                    } else {
                        TransferDelivery::Unmatched
                    },
                    None => TransferDelivery::Unmatched,
                };
                let ghost updated = entry;
                self.devices.insert(id, entry);
                proof {
                    if delivery is Unmatched {
                        assert(self.devices@ =~= prior);
                    } else {
                        assert(self.devices@ =~= prior.insert(id, updated));
                    }
                }
                Ok(delivery)
            },
        }
    }
}

} // verus!
