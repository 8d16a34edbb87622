//! Tracking of device-verification requests and of the one challenge that is
//! shown at a time.
//!
//! A request is tracked from the moment its event arrives until it is done or
//! cancelled. While requests wait, at most one of them holds the challenge
//! slot: the emoji or the decimal code that both devices must show. A second
//! request that becomes presentable waits until the slot is free again. This
//! is a deliberate simplification for a bot with a single operator.

use vstd::prelude::*;
use crate::seqs::{lemma_filter_nothing, lemma_filter_step};
use crate::text::same_text;

verus! {

/// The status that a request is tracked with from its arrival.
pub open spec fn pending_status() -> Seq<char> {
    "pending"@
}

/// A verification request of another device.
#[derive(Debug)]
pub struct VerificationRequestInfo {
    pub request_id: String,
    pub other_user_id: String,
    pub other_device_id: String,
    pub status: String,
}

/// What a request holds, as plain sequences.
pub struct RequestView {
    pub request_id: Seq<char>,
    pub other_user_id: Seq<char>,
    pub other_device_id: Seq<char>,
    pub status: Seq<char>,
}

impl View for VerificationRequestInfo {
    type V = RequestView;

    open spec fn view(&self) -> RequestView {
        RequestView {
            request_id: self.request_id@,
            other_user_id: self.other_user_id@,
            other_device_id: self.other_device_id@,
            status: self.status@,
        }
    }
}

impl Clone for VerificationRequestInfo {
    fn clone(&self) -> (out: Self)
        ensures
            out@ == self@,
    {
        VerificationRequestInfo {
            request_id: self.request_id.clone(),
            other_user_id: self.other_user_id.clone(),
            other_device_id: self.other_device_id.clone(),
            status: self.status.clone(),
        }
    }
}

/// The challenge of one request: the emoji with their descriptions, the
/// three decimal codes, or both.
#[derive(Debug)]
pub struct SasInfo {
    pub request_id: String,
    pub emoji: Option<Vec<(String, String)>>,
    pub decimals: Option<(u16, u16, u16)>,
}

/// What a challenge holds, as plain sequences.
pub struct SasView {
    pub request_id: Seq<char>,
    pub emoji: Option<Seq<(Seq<char>, Seq<char>)>>,
    pub decimals: Option<(u16, u16, u16)>,
}

/// The view of an emoji list that may be absent.
pub open spec fn emoji_view(emoji: Option<Vec<(String, String)>>) -> Option<
    Seq<(Seq<char>, Seq<char>)>,
> {
    match emoji {
        Some(list) => Some(Seq::new(list@.len(), |i: int| (list@[i].0@, list@[i].1@))),
        None => None,
    }
}

impl View for SasInfo {
    type V = SasView;

    open spec fn view(&self) -> SasView {
        SasView {
            request_id: self.request_id@,
            emoji: emoji_view(self.emoji),
            decimals: self.decimals,
        }
    }
}

/// A copy of an emoji list.
fn clone_emoji(emoji: &Option<Vec<(String, String)>>) -> (out: Option<Vec<(String, String)>>)
    ensures
        emoji_view(out) == emoji_view(*emoji),
{
    match emoji {
        None => None,
        Some(list) => {
            let mut copy: Vec<(String, String)> = Vec::with_capacity(list.len());
            let mut i: usize = 0;
            while i < list.len()
                invariant
                    i <= list.len(),
                    copy@.len() == i,
                    forall|k: int|
                        0 <= k < i ==> copy@[k].0@ == list@[k].0@ && copy@[k].1@ == list@[k].1@,
                decreases list.len() - i,
            {
                let pair = &list[i];
                copy.push((pair.0.clone(), pair.1.clone()));
                i += 1;
            }
            assert(emoji_view(Some(copy))->0 =~= emoji_view(*emoji)->0);
            Some(copy)
        },
    }
}

impl Clone for SasInfo {
    fn clone(&self) -> (out: Self)
        ensures
            out@ == self@,
    {
        SasInfo {
            request_id: self.request_id.clone(),
            emoji: clone_emoji(&self.emoji),
            decimals: self.decimals,
        }
    }
}

/// What the engine shows of a request's challenge at one moment.
#[derive(Debug)]
pub struct SasObservation {
    pub can_be_presented: bool,
    pub is_done: bool,
    pub emoji: Option<Vec<(String, String)>>,
    pub decimals: Option<(u16, u16, u16)>,
}

/// What an observation holds, as plain sequences.
pub struct ObservationView {
    pub can_be_presented: bool,
    pub is_done: bool,
    pub emoji: Option<Seq<(Seq<char>, Seq<char>)>>,
    pub decimals: Option<(u16, u16, u16)>,
}

impl View for SasObservation {
    type V = ObservationView;

    open spec fn view(&self) -> ObservationView {
        ObservationView {
            can_be_presented: self.can_be_presented,
            is_done: self.is_done,
            emoji: emoji_view(self.emoji),
            decimals: self.decimals,
        }
    }
}

/// The view of a list of requests.
pub open spec fn requests_view(requests: Seq<VerificationRequestInfo>) -> Seq<RequestView> {
    Seq::new(requests.len(), |i: int| requests[i]@)
}

/// The view of the observations of one reconciliation, each with the id of
/// its request.
pub open spec fn observations_view(observations: Seq<(String, SasObservation)>) -> Seq<
    (Seq<char>, ObservationView),
> {
    Seq::new(observations.len(), |i: int| (observations[i].0@, observations[i].1@))
}

/// The view of a challenge that may be absent.
pub open spec fn sas_view(sas: Option<SasInfo>) -> Option<SasView> {
    match sas {
        Some(s) => Some(s@),
        None => None,
    }
}

/// The requests whose id is not `id`.
pub open spec fn other_than(id: Seq<char>) -> spec_fn(RequestView) -> bool {
    |r: RequestView| r.request_id != id
}

/// The state of the tracker: the requests in the order of their arrival, and
/// the challenge that holds the slot.
pub struct CoordinatorView {
    pub requests: Seq<RequestView>,
    pub active: Option<SasView>,
}

impl CoordinatorView {
    /// A request with this id is tracked.
    pub open spec fn tracks(self, id: Seq<char>) -> bool {
        exists|i: int| 0 <= i < self.requests.len() && #[trigger] self.requests[i].request_id == id
    }

    /// The challenge in the slot belongs to a tracked request.
    pub open spec fn wf(self) -> bool {
        self.active matches Some(a) ==> self.tracks(a.request_id)
    }

    /// The slot is free, or the request with this id holds it.
    pub open spec fn slot_open_for(self, id: Seq<char>) -> bool {
        self.active matches Some(a) ==> a.request_id == id
    }

    /// The state after a request arrived.
    pub open spec fn with_request(self, request: RequestView) -> CoordinatorView {
        CoordinatorView { requests: self.requests.push(request), ..self }
    }

    /// The slot after the request with this id gave it up, if it held it.
    pub open spec fn active_without(self, id: Seq<char>) -> Option<SasView> {
        match self.active {
            Some(a) if a.request_id == id => None,
            _ => self.active,
        }
    }

    /// The state after the request with this id left: it is no longer
    /// tracked, and the slot is free if it held it.
    pub open spec fn without(self, id: Seq<char>) -> CoordinatorView {
        CoordinatorView {
            requests: self.requests.filter(other_than(id)),
            active: self.active_without(id),
        }
    }

    /// The state after the challenge of the request with this id was
    /// offered to the slot: it takes the slot if the slot is open for it.
    pub open spec fn presented(self, id: Seq<char>, obs: ObservationView) -> CoordinatorView {
        if obs.can_be_presented && self.slot_open_for(id) {
            CoordinatorView {
                active: Some(SasView { request_id: id, emoji: obs.emoji, decimals: obs.decimals }),
                ..self
            }
        } else {
            self
        }
    }

    /// The state after one observation of a request was taken in. An
    /// observation of a request that is not tracked changes nothing.
    pub open spec fn reconciled(self, id: Seq<char>, obs: ObservationView) -> CoordinatorView {
        if !self.tracks(id) {
            self
        } else if obs.is_done {
            self.presented(id, obs).without(id)
        } else {
            self.presented(id, obs)
        }
    }

    /// The state after the observations of one reconciliation were taken
    /// in, one after the other.
    pub open spec fn reconciled_all(
        self,
        observations: Seq<(Seq<char>, ObservationView)>,
    ) -> CoordinatorView
        decreases observations.len(),
    {
        if observations.len() == 0 {
            self
        } else {
            self.reconciled_all(observations.drop_last()).reconciled(
                observations.last().0,
                observations.last().1,
            )
        }
    }

    /// The state after a confirmation whose challenge was then seen done or
    /// not done.
    pub open spec fn confirmed(self, is_done: bool) -> CoordinatorView {
        if is_done {
            CoordinatorView { active: None, ..self }
        } else {
            self
        }
    }
}

/// The tracker of verification requests.
#[derive(Debug)]
pub struct VerificationCoordinator {
    requests: Vec<VerificationRequestInfo>,
    active: Option<SasInfo>,
}

impl View for VerificationCoordinator {
    type V = CoordinatorView;

    closed spec fn view(&self) -> CoordinatorView {
        CoordinatorView { requests: requests_view(self.requests@), active: sas_view(self.active) }
    }
}

impl VerificationCoordinator {
    /// A tracker with no request and a free slot.
    pub fn new() -> (out: Self)
        ensures
            out@.requests == Seq::<RequestView>::empty(),
            out@.active is None,
            out@.wf(),
    {
        let out = VerificationCoordinator { requests: Vec::new(), active: None };
        assert(out@.requests =~= Seq::<RequestView>::empty());
        out
    }

    /// Takes in a request that arrived: it is tracked from now on, as
    /// pending, behind those that came before.
    pub fn on_request(&mut self, request_id: &str, other_user_id: &str, other_device_id: &str)
        ensures
            final(self)@ == old(self)@.with_request(
                RequestView {
                    request_id: request_id@,
                    other_user_id: other_user_id@,
                    other_device_id: other_device_id@,
                    status: pending_status(),
                },
            ),
            old(self)@.wf() ==> final(self)@.wf(),
    {
        let request = VerificationRequestInfo {
            request_id: request_id.to_owned(),
            other_user_id: other_user_id.to_owned(),
            other_device_id: other_device_id.to_owned(),
            status: "pending".to_owned(),
        };
        proof {
            if old(self)@.wf() {
                lemma_with_request_keeps_wf(old(self)@, request@);
            }
        }
        self.requests.push(request);
        assert(self@.requests =~= old(self)@.requests.push(request@));
    }

    /// The tracked requests, in the order of their arrival.
    pub fn requests(&self) -> (out: Vec<VerificationRequestInfo>)
        ensures
            requests_view(out@) == self@.requests,
    {
        let mut out: Vec<VerificationRequestInfo> = Vec::with_capacity(self.requests.len());
        let mut i: usize = 0;
        while i < self.requests.len()
            invariant
                i <= self.requests.len(),
                out@.len() == i,
                forall|k: int| 0 <= k < i ==> out@[k]@ == self.requests@[k]@,
            decreases self.requests.len() - i,
        {
            out.push(self.requests[i].clone());
            i += 1;
        }
        assert(requests_view(out@) =~= self@.requests);
        out
    }

    /// The challenge that holds the slot.
    pub fn active_sas(&self) -> (out: Option<SasInfo>)
        ensures
            sas_view(out) == self@.active,
    {
        match &self.active {
            Some(sas) => Some(sas.clone()),
            None => None,
        }
    }

    /// Whether a request with this id is tracked.
    pub fn is_tracked(&self, request_id: &str) -> (out: bool)
        ensures
            out == self@.tracks(request_id@),
    {
        let mut i: usize = 0;
        while i < self.requests.len()
            invariant
                i <= self.requests.len(),
                forall|k: int| 0 <= k < i ==> self@.requests[k].request_id != request_id@,
            decreases self.requests.len() - i,
        {
            if same_text(self.requests[i].request_id.as_str(), request_id) {
                assert(self@.requests[i as int].request_id == request_id@);
                return true;
            }
            i += 1;
        }
        false
    }

    /// Whether the slot is free or held by the request with this id.
    pub fn slot_open_for(&self, request_id: &str) -> (out: bool)
        ensures
            out == self@.slot_open_for(request_id@),
    {
        match &self.active {
            None => true,
            Some(sas) => same_text(sas.request_id.as_str(), request_id),
        }
    }

    /// Stops tracking the request with this id and frees the slot if that
    /// request held it. Other requests, and a challenge of another request,
    /// stay as they are.
    pub fn forget(&mut self, request_id: &str)
        ensures
            final(self)@ == old(self)@.without(request_id@),
            !final(self)@.tracks(request_id@),
            old(self)@.wf() ==> final(self)@.wf(),
    {
        let ghost before = self@;
        let ghost keep = other_than(request_id@);
        let mut kept: Vec<VerificationRequestInfo> = Vec::new();
        let mut i: usize = 0;
        proof {
            lemma_filter_nothing(before.requests, keep);
        }
        while i < self.requests.len()
            invariant
                i <= self.requests.len(),
                self@ == before,
                keep == other_than(request_id@),
                requests_view(kept@) =~= before.requests.take(i as int).filter(keep),
            decreases self.requests.len() - i,
        {
            proof {
                lemma_filter_step(before.requests, keep, i as int);
            }
            if !same_text(self.requests[i].request_id.as_str(), request_id) {
                kept.push(self.requests[i].clone());
            }
            i += 1;
        }
        assert(before.requests.take(i as int) =~= before.requests);
        self.requests = kept;
        let matches = match &self.active {
            Some(sas) => same_text(sas.request_id.as_str(), request_id),
            None => false,
        };
        if matches {
            self.active = None;
        }
        proof {
            lemma_without_forgets(before, request_id@);
        }
    }

    /// Takes in what the engine shows of one tracked request. A challenge
    /// that can be presented takes the slot if the slot is free or already
    /// held by this request. A challenge that is done frees the slot if it
    /// held it, and its request is no longer tracked. An observation of a
    /// request that is not tracked changes nothing.
    pub fn reconcile(&mut self, request_id: &str, observation: &SasObservation)
        ensures
            final(self)@ == old(self)@.reconciled(request_id@, observation@),
            old(self)@.wf() ==> final(self)@.wf(),
    {
        proof {
            if old(self)@.wf() {
                lemma_reconciled_keeps_wf(old(self)@, request_id@, observation@);
            }
        }
        if !self.is_tracked(request_id) {
            return ;
        }
        if observation.can_be_presented && self.slot_open_for(request_id) {
            self.active = Some(
                SasInfo {
                    request_id: request_id.to_owned(),
                    emoji: clone_emoji(&observation.emoji),
                    decimals: observation.decimals,
                },
            );
        }
        if observation.is_done {
            self.forget(request_id);
        }
    }

    /// Takes in the observations of one reconciliation, in their order.
    pub fn reconcile_all(&mut self, observations: &Vec<(String, SasObservation)>)
        ensures
            final(self)@ == old(self)@.reconciled_all(observations_view(observations@)),
            old(self)@.wf() ==> final(self)@.wf(),
    {
        let ghost all = observations_view(observations@);
        let mut i: usize = 0;
        assert(all.take(0) =~= Seq::<(Seq<char>, ObservationView)>::empty());
        while i < observations.len()
            invariant
                i <= observations.len(),
                all == observations_view(observations@),
                self@ == old(self)@.reconciled_all(all.take(i as int)),
                old(self)@.wf() ==> self@.wf(),
            decreases observations.len() - i,
        {
            assert(all.take(i + 1).drop_last() =~= all.take(i as int));
            assert(all.take(i + 1).last() == all[i as int]);
            let entry = &observations[i];
            self.reconcile(entry.0.as_str(), &entry.1);
            i += 1;
        }
        assert(all.take(i as int) =~= all);
    }

    /// Takes in the end of a confirmation: where the challenge was then
    /// seen done, the slot is freed.
    pub fn on_confirmed(&mut self, is_done: bool)
        ensures
            final(self)@ == old(self)@.confirmed(is_done),
            old(self)@.wf() ==> final(self)@.wf(),
    {
        if is_done {
            self.active = None;
        }
    }
}

/// A new request leaves the challenge in the slot with its request.
pub proof fn lemma_with_request_keeps_wf(state: CoordinatorView, request: RequestView)
    requires
        state.wf(),
    ensures
        state.with_request(request).wf(),
{
    if let Some(a) = state.active {
        let i = choose|i: int|
            0 <= i < state.requests.len() && #[trigger] state.requests[i].request_id
                == a.request_id;
        assert(state.with_request(request).requests[i].request_id == a.request_id);
    }
}

/// A request that left is not tracked any more and does not hold the slot;
/// every other request is tracked as before, and a challenge of another
/// request keeps the slot.
pub proof fn lemma_without_forgets(state: CoordinatorView, id: Seq<char>)
    ensures
        !state.without(id).tracks(id),
        !(state.without(id).active matches Some(a) && a.request_id == id),
        forall|other: Seq<char>|
            other != id ==> (state.without(id).tracks(other) <==> state.tracks(other)),
        state.wf() ==> state.without(id).wf(),
{
    broadcast use vstd::seq_lib::group_filter_ensures;

    let keep = other_than(id);
    let after = state.without(id);
    if after.tracks(id) {
        let i = choose|i: int|
            0 <= i < after.requests.len() && #[trigger] after.requests[i].request_id == id;
        state.requests.lemma_filter_pred(keep, i);
        assert(keep(after.requests[i]));
    }
    assert forall|other: Seq<char>| other != id implies (after.tracks(other) <==> state.tracks(
        other,
    )) by {
        if after.tracks(other) {
            let i = choose|i: int|
                0 <= i < after.requests.len() && #[trigger] after.requests[i].request_id == other;
            let r = after.requests[i];
            assert(after.requests.contains(r));
            state.requests.lemma_filter_contains_rev(keep, r);
            let j = choose|j: int| 0 <= j < state.requests.len() && state.requests[j] == r;
            assert(state.requests[j].request_id == other);
        }
        if state.tracks(other) {
            let j = choose|j: int|
                0 <= j < state.requests.len() && #[trigger] state.requests[j].request_id == other;
            assert(keep(state.requests[j]));
            state.requests.lemma_filter_contains(keep, j);
            let r = state.requests[j];
            let i = choose|i: int| 0 <= i < after.requests.len() && after.requests[i] == r;
            assert(after.requests[i].request_id == other);
        }
    }
    if state.wf() {
        if let Some(a) = after.active {
            assert(a.request_id != id);
            assert(state.tracks(a.request_id));
        }
    }
}

/// Taking in an observation leaves the challenge in the slot with a tracked
/// request.
pub proof fn lemma_reconciled_keeps_wf(state: CoordinatorView, id: Seq<char>, obs: ObservationView)
    requires
        state.wf(),
    ensures
        state.reconciled(id, obs).wf(),
{
    if state.tracks(id) {
        let shown = state.presented(id, obs);
        assert(shown.requests == state.requests);
        assert(shown.tracks(id)) by {
            let i = choose|i: int|
                0 <= i < state.requests.len() && #[trigger] state.requests[i].request_id == id;
            assert(shown.requests[i].request_id == id);
        }
        assert(shown.wf()) by {
            if let Some(a) = shown.active {
                if a.request_id != id {
                    assert(state.active == Some(a));
                    let i = choose|i: int|
                        0 <= i < state.requests.len() && #[trigger] state.requests[i].request_id
                            == a.request_id;
                    assert(shown.requests[i].request_id == a.request_id);
                }
            }
        }
        lemma_without_forgets(shown, id);
    }
}

/// While one request holds the slot, what is seen of another request
/// neither takes the slot nor frees it.
pub proof fn lemma_held_slot_is_kept(state: CoordinatorView, id: Seq<char>, obs: ObservationView)
    requires
        state.active matches Some(a) && a.request_id != id,
    ensures
        state.reconciled(id, obs).active == state.active,
{
}

/// A tracked request whose challenge can be presented takes a free slot,
/// and keeps the slot that it holds, with what was seen of it last. Where it
/// is done at the same time, it leaves at once and the slot is free.
pub proof fn lemma_presentable_takes_open_slot(
    state: CoordinatorView,
    id: Seq<char>,
    obs: ObservationView,
)
    requires
        state.tracks(id),
        state.slot_open_for(id),
        obs.can_be_presented,
    ensures
        state.reconciled(id, obs).active == if obs.is_done {
            None
        } else {
            Some(SasView { request_id: id, emoji: obs.emoji, decimals: obs.decimals })
        },
{
}

/// A tracked request that is seen done is no longer tracked afterwards, and
/// the slot is open for every other request if it was open for this one.
pub proof fn lemma_done_request_leaves(state: CoordinatorView, id: Seq<char>, obs: ObservationView)
    requires
        state.tracks(id),
        obs.is_done,
    ensures
        !state.reconciled(id, obs).tracks(id),
        state.slot_open_for(id) ==> state.reconciled(id, obs).active is None,
        forall|other: Seq<char>|
            other != id ==> (state.reconciled(id, obs).tracks(other) <==> state.tracks(other)),
{
    let shown = state.presented(id, obs);
    lemma_without_forgets(shown, id);
    assert forall|other: Seq<char>| other != id implies (state.reconciled(id, obs).tracks(other)
        <==> state.tracks(other)) by {
        assert(shown.requests == state.requests);
        if state.tracks(other) {
            let i = choose|i: int|
                0 <= i < state.requests.len() && #[trigger] state.requests[i].request_id == other;
            assert(shown.requests[i].request_id == other);
        }
        if shown.tracks(other) {
            let i = choose|i: int|
                0 <= i < shown.requests.len() && #[trigger] shown.requests[i].request_id == other;
            assert(state.requests[i].request_id == other);
        }
    }
}

} // verus!
