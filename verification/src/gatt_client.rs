//! Generic Attribute client: the discovery walk.
//!
//! Discovery is a paginated, multi-stage protocol: find the service, then
//! page characteristics across its handle range, then look descriptors up
//! per characteristic. Every transport request suspends the walk until the
//! matching completion arrives, so the walk is a state machine: [`Walk::step`]
//! consumes one completion and says which request to issue next, or that the
//! walk is over. The driver that actually issues requests and awaits events
//! sits outside; everything it must decide is decided here.
//!
//! A characteristic can only be reported once its descriptor range is known,
//! and the range's upper bound comes from the *next* characteristic's
//! declaration handle (or, for the last one, the service's end handle). The
//! walk therefore holds one characteristic back and finalizes it when its
//! successor, or the end of pagination, arrives.

use vstd::prelude::*;
use crate::pages::{
    CharacteristicPage, DescriptorPage, PAGE_CAPACITY, char_page, char_page_get, char_page_len,
    char_page_new, char_page_push, desc_page, desc_page_get, desc_page_len, desc_page_new,
    desc_page_push,
};
use crate::portal::PortalMessage;
use crate::status::{
    DiscoverError, GattError, GATT_STATUS_SUCCESS, status_to_error, status_to_error_spec,
};
use crate::types::{Characteristic, Connection, Descriptor, DiscoveredService, HandleRange, Uuid};

verus! {

/// Trait for implementing GATT clients.
pub trait Client: Sized {
    /// The identifier of the service this client drives; [`discovery`] walks
    /// the first service carrying it.
    fn uuid() -> Uuid;

    /// Create a new instance in a "not-yet-discovered" state.
    fn new_undiscovered(conn: Connection) -> Self;

    /// Called once per discovered characteristic, in ascending handle order,
    /// after the full descriptor set for that characteristic is known.
    fn discovered_characteristic(
        &mut self,
        characteristic: &Characteristic,
        descriptors: &[Descriptor],
    );

    /// Called at the end of the walk. Implementations check that all
    /// required characteristics have been seen, and return
    /// [`DiscoverError::ServiceIncomplete`] otherwise.
    fn discovery_complete(&mut self) -> Result<(), DiscoverError>;
}

/// A request the walk needs issued on the transport.
#[derive(Debug, Clone, Copy, PartialEq, Eq, Structural)]
pub enum WalkRequest {
    /// Discover characteristics over the given handle range.
    Characteristics(HandleRange),
    /// Discover descriptors over the given handle range.
    Descriptors(HandleRange),
}

/// One finalized characteristic with its descriptors, ready for the client.
pub struct Report {
    pub characteristic: Characteristic,
    pub descriptors: Vec<Descriptor>,
}

/// Where the walk stands after one step.
#[derive(Debug, Clone, Copy)]
pub enum WalkStatus {
    /// Issue this request, then feed the completion back in.
    Pending(WalkRequest),
    /// The walk is over: on `Ok` every characteristic was reported and the
    /// client's completeness check is due; on `Err` the walk failed.
    Complete(Result<(), DiscoverError>),
}

/// What one step produced: the characteristics finalized by this step, in
/// order, and where the walk now stands.
pub struct StepOutcome {
    pub reports: Vec<Report>,
    pub status: WalkStatus,
}

/// The phases of the walk, one per request kind the walk can be awaiting.
#[derive(Debug, Clone, Copy, PartialEq, Eq, Structural)]
pub enum WalkPhase {
    AwaitingService,
    AwaitingCharacteristics,
    AwaitingDescriptors,
    Finished,
}

/// The mathematical state of a walk between completions.
#[verifier::ext_equal]
pub struct WalkModel {
    /// The service under discovery.
    pub service: DiscoveredService,
    /// The first handle pagination has not yet covered.
    pub next_handle: int,
    /// Whether pagination has been ended by an "attribute not found".
    pub paging_done: bool,
    /// The characteristic held back until its successor bounds it.
    pub held: Option<Characteristic>,
    /// The records of the current page not yet consumed.
    pub queue: Seq<Characteristic>,
}

/// What the walk does next, in the model.
pub enum StatusModel {
    NeedCharacteristics(HandleRange),
    NeedDescriptors(HandleRange, Characteristic),
    Done(Result<(), DiscoverError>),
}

/// Result of advancing the model as far as it can go without the transport:
/// the new state, the characteristics reported on the way (each with its
/// descriptors), and what is needed next.
#[verifier::ext_equal]
pub struct AdvanceModel {
    pub model: WalkModel,
    pub reports: Seq<(Characteristic, Seq<Descriptor>)>,
    pub status: StatusModel,
}

/// Advance the walk as far as possible: consume queued page records,
/// finalizing each held-back characteristic as its successor arrives — with
/// a descriptor lookup over `[value + 1, successor's declaration - 1]` when
/// that range is non-empty, and immediately with no descriptors when it is
/// empty. With the queue consumed, either page further (strictly below the
/// service's end handle, unless pagination already ended), or finalize the
/// last held-back characteristic against the service's end handle, or
/// complete.
pub open spec fn advance_spec(m: WalkModel) -> AdvanceModel
    decreases m.queue.len(),
{
    if m.queue.len() > 0 {
        let r = m.queue[0];
        let taken = WalkModel {
            service: m.service,
            next_handle: r.handle_value + 1,
            paging_done: m.paging_done,
            held: Some(r),
            queue: m.queue.drop_first(),
        };
        match m.held {
            None => advance_spec(taken),
            Some(p) => {
                if p.handle_value + 2 <= r.handle_decl {
                    AdvanceModel {
                        model: m,
                        reports: Seq::empty(),
                        status: StatusModel::NeedDescriptors(
                            HandleRange {
                                start: (p.handle_value + 1) as u16,
                                end: (r.handle_decl - 1) as u16,
                            },
                            p,
                        ),
                    }
                } else {
                    let rest = advance_spec(taken);
                    AdvanceModel {
                        model: rest.model,
                        reports: seq![(p, Seq::<Descriptor>::empty())] + rest.reports,
                        status: rest.status,
                    }
                }
            }
        }
    } else {
        if !m.paging_done && m.next_handle < m.service.range.end {
            AdvanceModel {
                model: m,
                reports: Seq::empty(),
                status: StatusModel::NeedCharacteristics(
                    HandleRange { start: m.next_handle as u16, end: m.service.range.end },
                ),
            }
        } else {
            match m.held {
                Some(p) => {
                    if p.handle_value + 1 <= m.service.range.end {
                        AdvanceModel {
                            model: m,
                            reports: Seq::empty(),
                            status: StatusModel::NeedDescriptors(
                                HandleRange {
                                    start: (p.handle_value + 1) as u16,
                                    end: m.service.range.end,
                                },
                                p,
                            ),
                        }
                    } else {
                        AdvanceModel {
                            model: WalkModel {
                                service: m.service,
                                next_handle: m.next_handle,
                                paging_done: m.paging_done,
                                held: None,
                                queue: m.queue,
                            },
                            reports: seq![(p, Seq::<Descriptor>::empty())],
                            status: StatusModel::Done(Ok(())),
                        }
                    }
                }
                None => AdvanceModel {
                    model: m,
                    reports: Seq::empty(),
                    status: StatusModel::Done(Ok(())),
                },
            }
        }
    }
}

/// The characteristic of each report.
pub open spec fn chars_of(reports: Seq<(Characteristic, Seq<Descriptor>)>) -> Seq<Characteristic> {
    reports.map_values(|t: (Characteristic, Seq<Descriptor>)| t.0)
}

/// View of an exec report list.
pub open spec fn reports_view(rs: Seq<Report>) -> Seq<(Characteristic, Seq<Descriptor>)> {
    rs.map_values(|r: Report| (r.characteristic, r.descriptors@))
}

/// The paginated, multi-stage discovery walk over one connection.
pub struct Walk {
    phase: WalkPhase,
    service: DiscoveredService,
    next_handle: u32,
    paging_done: bool,
    held: Option<Characteristic>,
    queue: CharacteristicPage,
    qi: usize,
    log: Ghost<Seq<Characteristic>>,
}

impl Walk {
    /// Which completion the walk is awaiting, if any.
    pub closed spec fn phase(self) -> WalkPhase {
        self.phase
    }

    /// The walk's mathematical state.
    pub closed spec fn model(self) -> WalkModel {
        WalkModel {
            service: self.service,
            next_handle: self.next_handle as int,
            paging_done: self.paging_done,
            held: self.held,
            queue: char_page(self.queue).skip(self.qi as int),
        }
    }

    /// Every characteristic reported so far, in reporting order.
    pub closed spec fn reported(self) -> Seq<Characteristic> {
        self.log@
    }

    pub closed spec fn wf(self) -> bool {
        &&& self.qi as int <= char_page(self.queue).len()
        &&& self.next_handle <= 0x10000
        &&& (self.phase is AwaitingDescriptors ==> self.held is Some)
        &&& (self.phase is AwaitingService ==> self.model().queue.len() == 0 && self.held is None)
        &&& (self.phase is AwaitingCharacteristics ==> self.model().queue.len() == 0)
    }

    /// A fresh walk, awaiting the primary-service lookup's completion.
    pub fn new() -> (r: Walk)
        ensures
            r.wf(),
            r.phase() is AwaitingService,
            r.reported() == Seq::<Characteristic>::empty(),
    {
        Walk {
            phase: WalkPhase::AwaitingService,
            service: DiscoveredService {
                uuid: None,
                range: HandleRange { start: 0, end: 0 },
            },
            next_handle: 0,
            paging_done: false,
            held: None,
            queue: char_page_new(),
            qi: 0,
            log: Ghost(Seq::empty()),
        }
    }

    /// The phase, for drivers that track where the walk stands.
    pub fn current_phase(&self) -> (p: WalkPhase)
        ensures
            p == self.phase(),
    {
        self.phase
    }

    fn fail(&mut self, e: DiscoverError) -> (outcome: StepOutcome)
        requires
            old(self).qi as int <= char_page(old(self).queue).len(),
            old(self).next_handle <= 0x10000,
        ensures
            fail_post(*old(self), *final(self), outcome, e),
            final(self).wf(),
    {
        self.phase = WalkPhase::Finished;
        StepOutcome { reports: Vec::new(), status: WalkStatus::Complete(Err(e)) }
    }

    fn advance(&mut self) -> (outcome: StepOutcome)
        requires
            old(self).qi as int <= char_page(old(self).queue).len(),
            old(self).next_handle <= 0x10000,
        ensures
            final(self).wf(),
            advance_post(*final(self), outcome, old(self).reported(), advance_spec(old(self).model())),
        decreases char_page(old(self).queue).len() - old(self).qi,
    {
        let qlen = char_page_len(&self.queue);
        if self.qi < qlen {
            let r = char_page_get(&self.queue, self.qi);
            match self.held {
                None => {
                    self.held = Some(r);
                    self.next_handle = r.handle_value as u32 + 1;
                    self.qi = self.qi + 1;
                    proof {
                        assert(char_page(self.queue).skip(self.qi as int)
                            =~= char_page(old(self).queue).skip(old(self).qi as int).drop_first());
                    }
                    let ghost mid = *self;
                    let out = self.advance();
                    proof {
                        let m = old(self).model();
                        assert(mid.model() =~= WalkModel {
                            service: m.service,
                            next_handle: m.queue[0].handle_value + 1,
                            paging_done: m.paging_done,
                            held: Some(m.queue[0]),
                            queue: m.queue.drop_first(),
                        });
                        assert(advance_spec(m) == advance_spec(mid.model()));
                    }
                    out
                }
                Some(p) => {
                    if (p.handle_value as u32) + 2 <= r.handle_decl as u32 {
                        self.phase = WalkPhase::AwaitingDescriptors;
                        proof {
                            let ar = advance_spec(old(self).model());
                            assert(self.model() =~= old(self).model());
                            assert(reports_view(Seq::<Report>::empty()) =~= ar.reports);
                            assert(self.log@ =~= old(self).log@ + chars_of(ar.reports));
                        }
                        StepOutcome {
                            reports: Vec::new(),
                            status: WalkStatus::Pending(WalkRequest::Descriptors(HandleRange {
                                start: p.handle_value + 1,
                                end: r.handle_decl - 1,
                            })),
                        }
                    } else {
                        self.held = Some(r);
                        self.next_handle = r.handle_value as u32 + 1;
                        self.qi = self.qi + 1;
                        self.log = Ghost(self.log@.push(p));
                        proof {
                            assert(char_page(self.queue).skip(self.qi as int)
                                =~= char_page(old(self).queue).skip(old(self).qi as int).drop_first());
                        }
                        let ghost mid = *self;
                        let mut out = self.advance();
                        let ghost tail = out.reports@;
                        out.reports.insert(0, Report { characteristic: p, descriptors: Vec::new() });
                        proof {
                            let m = old(self).model();
                            assert(mid.model() =~= WalkModel {
                                service: m.service,
                                next_handle: m.queue[0].handle_value + 1,
                                paging_done: m.paging_done,
                                held: Some(m.queue[0]),
                                queue: m.queue.drop_first(),
                            });
                            let rest = advance_spec(mid.model());
                            let ar = advance_spec(m);
                            assert(ar.model == rest.model && ar.status == rest.status
                                && ar.reports == seq![(p, Seq::<Descriptor>::empty())] + rest.reports);
                            assert(reports_view(out.reports@)
                                =~= seq![(p, Seq::<Descriptor>::empty())] + reports_view(tail));
                            assert(reports_view(out.reports@) =~= ar.reports);
                            assert(chars_of(ar.reports) =~= seq![p] + chars_of(rest.reports));
                            assert(self.log@ =~= old(self).log@ + chars_of(ar.reports));
                        }
                        out
                    }
                }
            }
        } else {
            proof {
                assert(char_page(self.queue).skip(self.qi as int) =~= Seq::<Characteristic>::empty());
            }
            if !self.paging_done && self.next_handle < self.service.range.end as u32 {
                self.phase = WalkPhase::AwaitingCharacteristics;
                proof {
                    let ar = advance_spec(old(self).model());
                    assert(self.model() =~= old(self).model());
                    assert(reports_view(Seq::<Report>::empty()) =~= ar.reports);
                    assert(self.log@ =~= old(self).log@ + chars_of(ar.reports));
                }
                StepOutcome {
                    reports: Vec::new(),
                    status: WalkStatus::Pending(WalkRequest::Characteristics(HandleRange {
                        start: self.next_handle as u16,
                        end: self.service.range.end,
                    })),
                }
            } else {
                match self.held {
                    Some(p) => {
                        if (p.handle_value as u32) + 1 <= self.service.range.end as u32 {
                            self.phase = WalkPhase::AwaitingDescriptors;
                            proof {
                                let ar = advance_spec(old(self).model());
                                assert(self.model() =~= old(self).model());
                                assert(reports_view(Seq::<Report>::empty()) =~= ar.reports);
                                assert(self.log@ =~= old(self).log@ + chars_of(ar.reports));
                            }
                            StepOutcome {
                                reports: Vec::new(),
                                status: WalkStatus::Pending(WalkRequest::Descriptors(HandleRange {
                                    start: p.handle_value + 1,
                                    end: self.service.range.end,
                                })),
                            }
                        } else {
                            self.held = None;
                            self.phase = WalkPhase::Finished;
                            self.log = Ghost(self.log@.push(p));
                            let mut reports: Vec<Report> = Vec::new();
                            reports.push(Report { characteristic: p, descriptors: Vec::new() });
                            proof {
                                let ar = advance_spec(old(self).model());
                                assert(ar.reports =~= seq![(p, Seq::<Descriptor>::empty())]);
                                assert(self.model() =~= ar.model);
                                assert(reports_view(reports@) =~= ar.reports);
                                assert(self.log@ =~= old(self).log@ + chars_of(ar.reports));
                            }
                            StepOutcome {
                                reports,
                                status: WalkStatus::Complete(Ok(())),
                            }
                        }
                    }
                    None => {
                        self.phase = WalkPhase::Finished;
                        proof {
                            let ar = advance_spec(old(self).model());
                            assert(self.model() =~= old(self).model());
                            assert(reports_view(Seq::<Report>::empty()) =~= ar.reports);
                            assert(self.log@ =~= old(self).log@ + chars_of(ar.reports));
                        }
                        StepOutcome { reports: Vec::new(), status: WalkStatus::Complete(Ok(())) }
                    }
                }
            }
        }
    }

    /// Consume one completion and run the walk to its next suspension point
    /// or to its end. The contract pins the whole transition: see
    /// [`step_post`].
    pub fn step(&mut self, message: PortalMessage) -> (outcome: StepOutcome)
        requires
            old(self).wf(),
        ensures
            final(self).wf(),
            step_post(*old(self), *final(self), message, outcome),
    {
        if matches!(self.phase, WalkPhase::Finished) {
            return self.fail(DiscoverError::ProtocolViolation);
        }
        if matches!(message, PortalMessage::Disconnected) {
            return self.fail(DiscoverError::Disconnected);
        }
        match self.phase {
            WalkPhase::AwaitingService => match message {
                PortalMessage::DiscoverService(res) => match res {
                    Ok(svc) => {
                        self.service = svc;
                        self.next_handle = svc.range.start as u32;
                        self.paging_done = false;
                        self.held = None;
                        proof {
                            assert(char_page(self.queue).skip(self.qi as int)
                                =~= Seq::<Characteristic>::empty());
                            assert(self.model() =~= WalkModel {
                                service: svc,
                                next_handle: svc.range.start as int,
                                paging_done: false,
                                held: None,
                                queue: Seq::empty(),
                            });
                        }
                        self.advance()
                    }
                    Err(e) => {
                        if matches!(e, DiscoverError::Gatt(GattError::AtterrAttributeNotFound)) {
                            self.fail(DiscoverError::ServiceNotFound)
                        } else {
                            self.fail(e)
                        }
                    }
                },
                _ => self.fail(DiscoverError::ProtocolViolation),
            },
            WalkPhase::AwaitingCharacteristics => match message {
                PortalMessage::DiscoverCharacteristics(res) => match res {
                    Ok(page) => {
                        let n = char_page_len(&page);
                        if n == 0 {
                            self.fail(DiscoverError::ProtocolViolation)
                        } else {
                            self.queue = page;
                            self.qi = 0;
                            proof {
                                assert(self.model() =~= WalkModel {
                                    service: old(self).model().service,
                                    next_handle: old(self).model().next_handle,
                                    paging_done: old(self).model().paging_done,
                                    held: old(self).model().held,
                                    queue: char_page(page),
                                });
                            }
                            self.advance()
                        }
                    }
                    Err(e) => {
                        if matches!(e, DiscoverError::Gatt(GattError::AtterrAttributeNotFound)) {
                            self.paging_done = true;
                            proof {
                                assert(self.model() =~= WalkModel {
                                    service: old(self).model().service,
                                    next_handle: old(self).model().next_handle,
                                    paging_done: true,
                                    held: old(self).model().held,
                                    queue: old(self).model().queue,
                                });
                            }
                            self.advance()
                        } else {
                            self.fail(e)
                        }
                    }
                },
                _ => self.fail(DiscoverError::ProtocolViolation),
            },
            WalkPhase::AwaitingDescriptors => match message {
                PortalMessage::DiscoverDescriptors(res) => match res {
                    Ok(descs) => {
                        if let Some(p) = self.held {
                            self.held = None;
                            let dn = desc_page_len(&descs);
                            let mut descriptors: Vec<Descriptor> = Vec::new();
                            let mut i: usize = 0;
                            while i < dn
                                invariant
                                    i <= dn,
                                    dn == desc_page(descs).len(),
                                    descriptors@ == desc_page(descs).take(i as int),
                                decreases dn - i,
                            {
                                descriptors.push(desc_page_get(&descs, i));
                                assert(descriptors@ =~= desc_page(descs).take(i as int + 1));
                                i += 1;
                            }
                            assert(descriptors@ =~= desc_page(descs));
                            self.log = Ghost(self.log@.push(p));
                            proof {
                                assert(self.model() =~= WalkModel {
                                    service: old(self).model().service,
                                    next_handle: old(self).model().next_handle,
                                    paging_done: old(self).model().paging_done,
                                    held: None,
                                    queue: old(self).model().queue,
                                });
                            }
                            let ghost mid = *self;
                            let mut out = self.advance();
                            let ghost tail = out.reports@;
                            out.reports.insert(
                                0,
                                Report { characteristic: p, descriptors },
                            );
                            proof {
                                let ar = advance_spec(mid.model());
                                assert(reports_view(out.reports@)
                                    =~= seq![(p, desc_page(descs))] + reports_view(tail));
                                assert(self.log@
                                    =~= old(self).log@ + seq![p] + chars_of(ar.reports));
                            }
                            out
                        } else {
                            self.fail(DiscoverError::ProtocolViolation)
                        }
                    }
                    Err(e) => self.fail(e),
                },
                _ => self.fail(DiscoverError::ProtocolViolation),
            },
            WalkPhase::Finished => self.fail(DiscoverError::ProtocolViolation),
        }
    }
}

/// The walk failed or was stepped out of protocol: no characteristic is
/// reported, nothing further will be requested, and the error says why.
pub open spec fn fail_post(pre: Walk, post: Walk, outcome: StepOutcome, e: DiscoverError) -> bool {
    &&& outcome.reports@.len() == 0
    &&& outcome.status == WalkStatus::Complete(Err::<(), DiscoverError>(e))
    &&& post.phase() is Finished
    &&& post.reported() == pre.reported()
}

/// The phase and the step's status say exactly what [`advance_spec`] needs
/// next.
pub open spec fn status_post(post: Walk, outcome: StepOutcome, ar: AdvanceModel) -> bool {
    match ar.status {
        StatusModel::NeedCharacteristics(r) => {
            &&& post.phase() is AwaitingCharacteristics
            &&& outcome.status == WalkStatus::Pending(WalkRequest::Characteristics(r))
        },
        StatusModel::NeedDescriptors(r, p) => {
            &&& post.phase() is AwaitingDescriptors
            &&& post.model().held == Some(p)
            &&& outcome.status == WalkStatus::Pending(WalkRequest::Descriptors(r))
        },
        StatusModel::Done(res) => {
            &&& post.phase() is Finished
            &&& outcome.status == WalkStatus::Complete(res)
        },
    }
}

/// The walk advanced: the reports, new state, phase and next request are
/// exactly what [`advance_spec`] says.
pub open spec fn advance_post(
    post: Walk,
    outcome: StepOutcome,
    pre_reported: Seq<Characteristic>,
    ar: AdvanceModel,
) -> bool {
    &&& reports_view(outcome.reports@) == ar.reports
    &&& post.model() == ar.model
    &&& post.reported() == pre_reported + chars_of(ar.reports)
    &&& status_post(post, outcome, ar)
}

/// As [`advance_post`], but a characteristic was finalized first — by the
/// descriptor page that just arrived — and is reported ahead of whatever
/// advancing reported.
pub open spec fn resumed_post(
    post: Walk,
    outcome: StepOutcome,
    pre_reported: Seq<Characteristic>,
    ar: AdvanceModel,
    first: (Characteristic, Seq<Descriptor>),
) -> bool {
    &&& reports_view(outcome.reports@) == seq![first] + ar.reports
    &&& post.model() == ar.model
    &&& post.reported() == pre_reported + seq![first.0] + chars_of(ar.reports)
    &&& status_post(post, outcome, ar)
}

/// The full transition relation of [`Walk::step`].
pub open spec fn step_post(
    pre: Walk,
    post: Walk,
    message: PortalMessage,
    outcome: StepOutcome,
) -> bool {
    if pre.phase() is Finished {
        fail_post(pre, post, outcome, DiscoverError::ProtocolViolation)
    } else if message is Disconnected {
        fail_post(pre, post, outcome, DiscoverError::Disconnected)
    } else {
        match pre.phase() {
            WalkPhase::AwaitingService => match message {
                PortalMessage::DiscoverService(res) => match res {
                    Ok(svc) => advance_post(
                        post,
                        outcome,
                        pre.reported(),
                        advance_spec(WalkModel {
                            service: svc,
                            next_handle: svc.range.start as int,
                            paging_done: false,
                            held: None,
                            queue: Seq::empty(),
                        }),
                    ),
                    Err(e) => {
                        if e == DiscoverError::Gatt(GattError::AtterrAttributeNotFound) {
                            fail_post(pre, post, outcome, DiscoverError::ServiceNotFound)
                        } else {
                            fail_post(pre, post, outcome, e)
                        }
                    },
                },
                _ => fail_post(pre, post, outcome, DiscoverError::ProtocolViolation),
            },
            WalkPhase::AwaitingCharacteristics => match message {
                PortalMessage::DiscoverCharacteristics(res) => match res {
                    Ok(page) => {
                        if char_page(page).len() == 0 {
                            fail_post(pre, post, outcome, DiscoverError::ProtocolViolation)
                        } else {
                            advance_post(
                                post,
                                outcome,
                                pre.reported(),
                                advance_spec(WalkModel {
                                    service: pre.model().service,
                                    next_handle: pre.model().next_handle,
                                    paging_done: pre.model().paging_done,
                                    held: pre.model().held,
                                    queue: char_page(page),
                                }),
                            )
                        }
                    },
                    Err(e) => {
                        if e == DiscoverError::Gatt(GattError::AtterrAttributeNotFound) {
                            advance_post(
                                post,
                                outcome,
                                pre.reported(),
                                advance_spec(WalkModel {
                                    service: pre.model().service,
                                    next_handle: pre.model().next_handle,
                                    paging_done: true,
                                    held: pre.model().held,
                                    queue: pre.model().queue,
                                }),
                            )
                        } else {
                            fail_post(pre, post, outcome, e)
                        }
                    },
                },
                _ => fail_post(pre, post, outcome, DiscoverError::ProtocolViolation),
            },
            WalkPhase::AwaitingDescriptors => match message {
                PortalMessage::DiscoverDescriptors(res) => match res {
                    Ok(descs) => {
                        &&& pre.model().held matches Some(p)
                        &&& resumed_post(
                            post,
                            outcome,
                            pre.reported(),
                            advance_spec(WalkModel {
                                service: pre.model().service,
                                next_handle: pre.model().next_handle,
                                paging_done: pre.model().paging_done,
                                held: None,
                                queue: pre.model().queue,
                            }),
                            (p, desc_page(descs)),
                        )
                    },
                    Err(e) => fail_post(pre, post, outcome, e),
                },
                _ => fail_post(pre, post, outcome, DiscoverError::ProtocolViolation),
            },
            WalkPhase::Finished => false,
        }
    }
}

/// Translate a primary-service-lookup response into its completion: on a
/// success status, the first listed service — a server that (incorrectly)
/// reports several matches is not an error — or `ServiceNotFound` when the
/// response lists none; a failure status maps through the catalogue.
pub fn service_response(status: u32, services: &Vec<DiscoveredService>) -> (r: PortalMessage)
    ensures
        r == PortalMessage::DiscoverService(
            if status_to_error_spec(status) is Success {
                if services@.len() == 0 {
                    Err::<DiscoveredService, DiscoverError>(DiscoverError::ServiceNotFound)
                } else {
                    Ok::<DiscoveredService, DiscoverError>(services@[0])
                }
            } else {
                Err::<DiscoveredService, DiscoverError>(
                    DiscoverError::Gatt(status_to_error_spec(status)),
                )
            },
        ),
{
    if status == GATT_STATUS_SUCCESS {
        if services.len() == 0 {
            PortalMessage::DiscoverService(Err(DiscoverError::ServiceNotFound))
        } else {
            PortalMessage::DiscoverService(Ok(services[0]))
        }
    } else {
        PortalMessage::DiscoverService(Err(DiscoverError::Gatt(status_to_error(status))))
    }
}

/// Translate a characteristic-discovery response into its completion: on a
/// success status the records become one bounded page; more records than a
/// page can carry is a transport contract violation, never a silent
/// truncation. A failure status maps through the catalogue.
pub fn characteristics_response(status: u32, records: &Vec<Characteristic>) -> (r: PortalMessage)
    ensures
        (status_to_error_spec(status) is Success && records@.len() <= PAGE_CAPACITY)
            ==> (r matches PortalMessage::DiscoverCharacteristics(Ok(page))
                && char_page(page) == records@),
        (status_to_error_spec(status) is Success && records@.len() > PAGE_CAPACITY)
            ==> r == PortalMessage::DiscoverCharacteristics(
                Err::<CharacteristicPage, DiscoverError>(DiscoverError::ProtocolViolation),
            ),
        !(status_to_error_spec(status) is Success)
            ==> r == PortalMessage::DiscoverCharacteristics(
                Err::<CharacteristicPage, DiscoverError>(
                    DiscoverError::Gatt(status_to_error_spec(status)),
                ),
            ),
{
    if status != GATT_STATUS_SUCCESS {
        PortalMessage::DiscoverCharacteristics(Err(DiscoverError::Gatt(status_to_error(status))))
    } else if records.len() > PAGE_CAPACITY {
        PortalMessage::DiscoverCharacteristics(Err(DiscoverError::ProtocolViolation))
    } else {
        let mut page = char_page_new();
        let mut i: usize = 0;
        while i < records.len()
            invariant
                i <= records@.len(),
                records@.len() <= PAGE_CAPACITY,
                char_page(page) == records@.take(i as int),
            decreases records@.len() - i,
        {
            let _ = char_page_push(&mut page, records[i]);
            assert(char_page(page) =~= records@.take(i as int + 1));
            i += 1;
        }
        assert(char_page(page) =~= records@);
        PortalMessage::DiscoverCharacteristics(Ok(page))
    }
}

/// Translate a descriptor-discovery response into its completion, exactly
/// as [`characteristics_response`] does for characteristics.
pub fn descriptors_response(status: u32, records: &Vec<Descriptor>) -> (r: PortalMessage)
    ensures
        (status_to_error_spec(status) is Success && records@.len() <= PAGE_CAPACITY)
            ==> (r matches PortalMessage::DiscoverDescriptors(Ok(page))
                && desc_page(page) == records@),
        (status_to_error_spec(status) is Success && records@.len() > PAGE_CAPACITY)
            ==> r == PortalMessage::DiscoverDescriptors(
                Err::<DescriptorPage, DiscoverError>(DiscoverError::ProtocolViolation),
            ),
        !(status_to_error_spec(status) is Success)
            ==> r == PortalMessage::DiscoverDescriptors(
                Err::<DescriptorPage, DiscoverError>(
                    DiscoverError::Gatt(status_to_error_spec(status)),
                ),
            ),
{
    if status != GATT_STATUS_SUCCESS {
        PortalMessage::DiscoverDescriptors(Err(DiscoverError::Gatt(status_to_error(status))))
    } else if records.len() > PAGE_CAPACITY {
        PortalMessage::DiscoverDescriptors(Err(DiscoverError::ProtocolViolation))
    } else {
        let mut page = desc_page_new();
        let mut i: usize = 0;
        while i < records.len()
            invariant
                i <= records@.len(),
                records@.len() <= PAGE_CAPACITY,
                desc_page(page) == records@.take(i as int),
            decreases records@.len() - i,
        {
            let _ = desc_page_push(&mut page, records[i]);
            assert(desc_page(page) =~= records@.take(i as int + 1));
            i += 1;
        }
        assert(desc_page(page) =~= records@);
        PortalMessage::DiscoverDescriptors(Ok(page))
    }
}

/// A held-back characteristic as a sequence of zero or one records.
pub open spec fn opt_seq(held: Option<Characteristic>) -> Seq<Characteristic> {
    match held {
        Some(c) => seq![c],
        None => Seq::empty(),
    }
}

/// The records a walk state still owes the client, in the order it will
/// report them: the held-back characteristic, then the unconsumed page.
pub open spec fn walk_line(m: WalkModel) -> Seq<Characteristic> {
    opt_seq(m.held) + m.queue
}

/// No record is skipped and none duplicated: what one advance reports,
/// followed by what the advanced state still owes, is exactly what the
/// starting state owed.
pub proof fn lemma_no_record_skipped(m: WalkModel)
    ensures
        chars_of(advance_spec(m).reports) + walk_line(advance_spec(m).model) == walk_line(m),
    decreases m.queue.len(),
{
    let ar = advance_spec(m);
    if m.queue.len() > 0 {
        let r = m.queue[0];
        let taken = WalkModel {
            service: m.service,
            next_handle: r.handle_value + 1,
            paging_done: m.paging_done,
            held: Some(r),
            queue: m.queue.drop_first(),
        };
        match m.held {
            None => {
                lemma_no_record_skipped(taken);
                assert(walk_line(taken) =~= walk_line(m));
            }
            Some(p) => {
                if p.handle_value + 2 <= r.handle_decl {
                    assert(chars_of(ar.reports) =~= Seq::<Characteristic>::empty());
                    assert(chars_of(ar.reports) + walk_line(m) =~= walk_line(m));
                } else {
                    lemma_no_record_skipped(taken);
                    let rest = advance_spec(taken);
                    assert(chars_of(ar.reports) =~= seq![p] + chars_of(rest.reports));
                    assert(seq![p] + walk_line(taken) =~= walk_line(m));
                    assert(chars_of(ar.reports) + walk_line(ar.model)
                        =~= seq![p] + (chars_of(rest.reports) + walk_line(rest.model)));
                }
            }
        }
    } else {
        if !m.paging_done && m.next_handle < m.service.range.end {
            assert(chars_of(ar.reports) + walk_line(m) =~= walk_line(m));
        } else {
            match m.held {
                Some(p) => {
                    if p.handle_value + 1 <= m.service.range.end {
                        assert(chars_of(ar.reports) + walk_line(m) =~= walk_line(m));
                    } else {
                        assert(chars_of(ar.reports) =~= seq![p]);
                        assert(walk_line(ar.model) =~= m.queue);
                        assert(chars_of(ar.reports) + walk_line(ar.model) =~= walk_line(m));
                    }
                }
                None => {
                    assert(chars_of(ar.reports) + walk_line(m) =~= walk_line(m));
                }
            }
        }
    }
}

/// Strictly ascending value handles.
pub open spec fn chars_sorted(s: Seq<Characteristic>) -> bool {
    forall|i: int, j: int| 0 <= i < j < s.len() ==> s[i].handle_value < s[j].handle_value
}

/// Characteristics are finalized and reported in strictly ascending handle
/// order: when what the walk still owes arrives in ascending order, one
/// advance reports an ascending prefix of it — nothing skipped, nothing
/// duplicated — and everything still owed lies strictly above every report.
pub proof fn lemma_reports_ascending(m: WalkModel)
    requires
        chars_sorted(walk_line(m)),
    ensures
        chars_of(advance_spec(m).reports) + walk_line(advance_spec(m).model) == walk_line(m),
        chars_sorted(chars_of(advance_spec(m).reports)),
        chars_sorted(walk_line(advance_spec(m).model)),
        forall|i: int, j: int|
            0 <= i < chars_of(advance_spec(m).reports).len() && 0 <= j < walk_line(
                advance_spec(m).model,
            ).len() ==> chars_of(advance_spec(m).reports)[i].handle_value < walk_line(
                advance_spec(m).model,
            )[j].handle_value,
{
    lemma_no_record_skipped(m);
    let c = chars_of(advance_spec(m).reports);
    let rest = walk_line(advance_spec(m).model);
    assert forall|i: int| 0 <= i < c.len() implies c[i] == walk_line(m)[i] by {
        assert((c + rest)[i] == c[i]);
    }
    assert forall|j: int| 0 <= j < rest.len() implies rest[j] == walk_line(m)[c.len() + j] by {
        assert((c + rest)[c.len() + j] == rest[j]);
    }
}

/// An empty or inverted handle range is never sent to the transport: every
/// request the walk asks for covers a well-formed range.
pub proof fn lemma_requests_well_formed(m: WalkModel)
    requires
        0 <= m.next_handle <= 0x10000,
    ensures
        advance_spec(m).status matches StatusModel::NeedCharacteristics(r) ==> r.wf(),
        advance_spec(m).status matches StatusModel::NeedDescriptors(r, p) ==> r.wf(),
    decreases m.queue.len(),
{
    if m.queue.len() > 0 {
        let r = m.queue[0];
        let taken = WalkModel {
            service: m.service,
            next_handle: r.handle_value + 1,
            paging_done: m.paging_done,
            held: Some(r),
            queue: m.queue.drop_first(),
        };
        match m.held {
            None => lemma_requests_well_formed(taken),
            Some(p) => {
                if !(p.handle_value + 2 <= r.handle_decl) {
                    lemma_requests_well_formed(taken);
                }
            }
        }
    }
}

/// Where a session stands after consuming one completion.
pub enum SessionStep<T: Client> {
    /// Issue this request, then feed the completion back in.
    Pending(WalkRequest),
    /// Discovery failed; the walk is over.
    Failed(DiscoverError),
    /// Discovery succeeded: every characteristic was reported to the client
    /// and its completeness check passed.
    Ready(T),
}

/// One discovery walk bound to a client: routes each finalized
/// characteristic into the client, in ascending handle order, and runs the
/// client's completeness check when the walk completes.
pub struct DiscoverySession<T: Client> {
    conn: Connection,
    walk: Walk,
    client: Option<T>,
}

impl<T: Client> DiscoverySession<T> {
    pub closed spec fn wf(self) -> bool {
        self.walk.wf()
    }

    /// The underlying walk.
    pub closed spec fn walk_state(self) -> Walk {
        self.walk
    }

    pub closed spec fn connection(self) -> Connection {
        self.conn
    }

    /// Start discovering: returns the session, awaiting the service
    /// lookup's completion, and the identifier of the service to look up —
    /// the driver issues that request over the full handle space.
    pub fn begin(conn: Connection) -> (r: (DiscoverySession<T>, Uuid))
        ensures
            r.0.wf(),
            r.0.walk_state().phase() is AwaitingService,
            r.0.walk_state().reported() == Seq::<Characteristic>::empty(),
            r.0.connection() == conn,
    {
        (DiscoverySession { conn, walk: Walk::new(), client: None }, T::uuid())
    }

    /// Consume one completion: step the walk, report what it finalized to
    /// the client, and either hand out the next request or finish — with
    /// the client, once its completeness check passes.
    pub fn on_message(&mut self, message: PortalMessage) -> (r: SessionStep<T>)
        requires
            old(self).wf(),
        ensures
            final(self).wf(),
            final(self).connection() == old(self).connection(),
            exists|outcome: StepOutcome|
                {
                    &&& #[trigger] step_post(
                        old(self).walk_state(),
                        final(self).walk_state(),
                        message,
                        outcome,
                    )
                    &&& match r {
                        SessionStep::Pending(req) => outcome.status == WalkStatus::Pending(req),
                        SessionStep::Failed(e) => outcome.status == WalkStatus::Complete(
                            Err::<(), DiscoverError>(e),
                        ) || (outcome.status matches WalkStatus::Complete(res) && res is Ok),
                        SessionStep::Ready(_) => outcome.status
                            matches WalkStatus::Complete(res) && res is Ok,
                    }
                },
    {
        let starting = matches!(self.walk.current_phase(), WalkPhase::AwaitingService);
        let outcome = self.walk.step(message);
        let ghost o = outcome;
        let ghost w = self.walk;
        let ghost c0 = self.conn;
        if starting && !matches!(outcome.status, WalkStatus::Complete(Err(_))) {
            if self.client.is_none() {
                self.client = Some(T::new_undiscovered(self.conn));
            }
        }
        let mut i: usize = 0;
        while i < outcome.reports.len()
            invariant
                self.walk == w,
                self.conn == c0,
            decreases outcome.reports@.len() - i,
        {
            match &mut self.client {
                Some(client) => {
                    let report = &outcome.reports[i];
                    client.discovered_characteristic(
                        &report.characteristic,
                        report.descriptors.as_slice(),
                    );
                }
                None => {}
            }
            i += 1;
        }
        let result = match outcome.status {
            WalkStatus::Pending(req) => SessionStep::Pending(req),
            WalkStatus::Complete(res) => match res {
                Ok(()) => match self.client.take() {
                    Some(mut client) => match client.discovery_complete() {
                        Ok(()) => SessionStep::Ready(client),
                        Err(e) => SessionStep::Failed(e),
                    },
                    None => SessionStep::Failed(DiscoverError::ProtocolViolation),
                },
                Err(e) => SessionStep::Failed(e),
            },
        };
        proof {
            assert({
                &&& step_post(old(self).walk_state(), self.walk_state(), message, o)
                &&& match result {
                    SessionStep::Pending(req) => o.status == WalkStatus::Pending(req),
                    SessionStep::Failed(e) => o.status == WalkStatus::Complete(
                        Err::<(), DiscoverError>(e),
                    ) || (o.status matches WalkStatus::Complete(res) && res is Ok),
                    SessionStep::Ready(_) => o.status
                        matches WalkStatus::Complete(res) && res is Ok,
                }
            });
        }
        result
    }
}

} // verus!
