//! The Bluetooth link. Reads of the radio's outbox are driven by notifications (or by
//! polling when the radio has none), and a dropped link starts a reconnect campaign.
//! Both run as background tasks of the page; what they decide, and what keeps them
//! from getting into each other's way, is here.

use vstd::prelude::*;

verus! {

/// The radio's primary service.
pub const MESHTASTIC_SERVICE_UUID: &'static str = "6ba1b218-15a8-461f-9fa8-5dcae273eafd";

/// The characteristic that takes one packet per write.
pub const TO_RADIO_CHARACTERISTIC: &'static str = "f75c76d2-129e-4dad-a1dd-7866124401e7";

/// The radio's outbox: each read gives at most one packet.
pub const FROM_RADIO_CHARACTERISTIC: &'static str = "2c55e69e-4993-11ed-b878-0242ac120002";

/// The characteristic that announces new data in the outbox.
pub const FROM_NUM_CHARACTERISTIC: &'static str = "ed9da18c-a800-4f66-a670-aa7547e34453";

/// Pause between polls of an empty outbox.
pub const POLL_IDLE_MS: i32 = 250;

/// Pause after an empty poll that follows a write, to pick up the response soon.
pub const POLL_AFTER_WRITE_MS: i32 = 50;

/// The flags that the background tasks of one Bluetooth connection share.
#[derive(Clone, Copy, Debug, PartialEq, Eq, Structural)]
pub struct BleLink {
    /// The radio announces new data, so that the outbox need not be polled.
    pub has_from_num: bool,
    /// The user ended the connection.
    pub stopped: bool,
    /// A drain of the outbox is in flight.
    pub drain_active: bool,
    /// New data was announced while a drain was in flight.
    pub drain_pending: bool,
    /// A reconnect campaign is running.
    pub reconnecting: bool,
    /// Something was written since the last empty poll.
    pub wrote: bool,
}

/// The outcome of one read of the outbox.
#[derive(Clone, Copy, Debug, PartialEq, Eq, Structural)]
pub enum ReadOutcome {
    /// A payload came.
    Data,
    /// The radio has nothing more.
    Empty,
    /// The read failed.
    Failed,
}

/// What the drain does next.
#[derive(Clone, Copy, Debug, PartialEq, Eq, Structural)]
pub enum DrainStep {
    /// Read the outbox once more.
    Read,
    /// End this drain.
    Finish,
}

/// What the polling loop does next.
#[derive(Clone, Copy, Debug, PartialEq, Eq, Structural)]
pub enum PollStep {
    /// Read the outbox at once.
    Read,
    /// Read the outbox after a pause.
    Sleep(i32),
    /// Leave the loop: the connection was ended.
    Stop,
    /// Leave the loop with the error of the read.
    Fail,
}

/// What a reconnect campaign waits for.
#[derive(Clone, Copy, Debug, PartialEq, Eq, Structural)]
pub enum CampaignStage {
    /// The word of the backoff policy on the next attempt.
    Planning,
    /// The end of the pause before the attempt.
    Waiting,
    /// The outcome of the attempt.
    Discovering,
    /// The end of what a successful attempt calls for.
    Resuming,
    /// Nothing any more.
    Ended,
}

/// A reconnect campaign.
#[derive(Clone, Copy, Debug, PartialEq, Eq, Structural)]
pub struct Campaign {
    pub stage: CampaignStage,
}

/// What the reconnect campaign does next.
#[derive(Clone, Copy, Debug, PartialEq, Eq, Structural)]
pub enum ReconnectStep {
    /// Pause before the attempt with this number.
    Wait { ms: i32, attempt: u64 },
    /// Connect and look up the characteristics.
    Discover,
    /// The link is up: perform the steps of [`resume_steps`].
    Resume { listen: bool },
    /// Count the failure and ask the backoff policy again.
    RecordFailure,
    /// The campaign is over; say so where it gave up.
    Finish { gave_up: bool },
    /// Nothing: the campaign does not wait for this.
    Nothing,
}

/// What has become of the last thing that the reconnect campaign asked for.
#[derive(Clone, Copy, Debug, PartialEq, Eq, Structural)]
pub enum ReconnectEvent {
    /// The backoff policy says whether it has given up, how long to pause and how many
    /// attempts have failed.
    Planning { gave_up: bool, delay_ms: u64, attempts: u32 },
    /// The pause is over.
    Waited,
    /// The characteristics were found; the new set announces data or does not.
    Discovered { has_from_num: bool },
    /// The attempt failed.
    DiscoverFailed,
    /// The steps for a link that is up again were performed.
    Resumed,
}

/// One step of going on with a link that is up again. A step that fails does not keep
/// the others from being tried.
#[derive(Clone, Copy, Debug, PartialEq, Eq, Structural)]
pub enum ResumeStep {
    /// Use the new characteristics from now on.
    TakeOverCharacteristics,
    /// Listen for announcements on the new characteristic, and turn them on.
    ListenForNotifications,
    /// Let the backoff policy start over.
    ResetBackoff,
    /// Ask the radio for its whole configuration.
    RequestConfig,
    /// Drain what the radio holds.
    Drain,
}

/// A drain is pending only while one is in flight.
pub open spec fn link_wf(link: BleLink) -> bool {
    link.drain_pending ==> link.drain_active
}

/// The flags of a link that was just opened.
pub open spec fn new_link(has_from_num: bool) -> BleLink {
    BleLink {
        has_from_num,
        stopped: false,
        drain_active: false,
        drain_pending: false,
        reconnecting: false,
        wrote: false,
    }
}

/// The flags of a link after a request to drain the outbox.
pub open spec fn after_request(link: BleLink) -> BleLink {
    if link.stopped {
        link
    } else if link.drain_active {
        BleLink { drain_pending: true, ..link }
    } else {
        BleLink { drain_active: true, ..link }
    }
}

/// A request to drain the outbox starts a new drain.
pub open spec fn request_starts(link: BleLink) -> bool {
    !link.stopped && !link.drain_active
}

/// The flags of a link when a drain has ended, before a pending request is honoured.
pub open spec fn after_end(link: BleLink) -> BleLink {
    BleLink { drain_active: false, drain_pending: false, ..link }
}

/// The flags of a link after a drain has ended and a pending request was honoured.
pub open spec fn after_finish(link: BleLink) -> BleLink {
    if link.drain_pending {
        after_request(after_end(link))
    } else {
        after_end(link)
    }
}

/// The end of a drain starts the next one.
pub open spec fn finish_starts(link: BleLink) -> bool {
    link.drain_pending && !link.stopped
}

/// The loss of the link starts a reconnect campaign.
pub open spec fn campaign_starts(link: BleLink) -> bool {
    !link.stopped && !link.reconnecting
}

/// The flags of a link after its loss was noticed.
pub open spec fn after_loss(link: BleLink) -> BleLink {
    if campaign_starts(link) {
        BleLink { reconnecting: true, ..link }
    } else {
        link
    }
}

/// What a reconnect campaign does next, on a link with these flags.
pub open spec fn reconnect_step_of(
    link: BleLink,
    stage: CampaignStage,
    listener: bool,
    event: ReconnectEvent,
) -> ReconnectStep {
    match (stage, event) {
        (
            CampaignStage::Planning,
            ReconnectEvent::Planning { gave_up, delay_ms, attempts },
        ) => if link.stopped || gave_up {
            ReconnectStep::Finish { gave_up: !link.stopped }
        } else {
            ReconnectStep::Wait { ms: delay_ms as i32, attempt: (attempts + 1) as u64 }
        },
        (CampaignStage::Waiting, ReconnectEvent::Waited) => if link.stopped {
            ReconnectStep::Finish { gave_up: false }
        } else {
            ReconnectStep::Discover
        },
        (
            CampaignStage::Discovering,
            ReconnectEvent::Discovered { has_from_num },
        ) => ReconnectStep::Resume { listen: has_from_num && listener },
        (
            CampaignStage::Discovering,
            ReconnectEvent::DiscoverFailed,
        ) => ReconnectStep::RecordFailure,
        (CampaignStage::Resuming, ReconnectEvent::Resumed) => ReconnectStep::Finish {
            gave_up: false,
        },
        _ => ReconnectStep::Nothing,
    }
}

/// What a campaign waits for after such a step.
pub open spec fn stage_after_step(stage: CampaignStage, step: ReconnectStep) -> CampaignStage {
    match step {
        ReconnectStep::Wait { .. } => CampaignStage::Waiting,
        ReconnectStep::Discover => CampaignStage::Discovering,
        ReconnectStep::Resume { .. } => CampaignStage::Resuming,
        ReconnectStep::RecordFailure => CampaignStage::Planning,
        ReconnectStep::Finish { .. } => CampaignStage::Ended,
        ReconnectStep::Nothing => stage,
    }
}

/// The flags of a link after such a step of its campaign: a new set of characteristics
/// announces data or does not, and the end of the campaign clears its flag.
pub open spec fn link_after_step(
    link: BleLink,
    event: ReconnectEvent,
    step: ReconnectStep,
) -> BleLink {
    match step {
        ReconnectStep::Resume { .. } => BleLink {
            has_from_num: event->has_from_num,
            ..link
        },
        ReconnectStep::Finish { .. } => BleLink { reconnecting: false, ..link },
        _ => link,
    }
}

/// The steps for a link that is up again.
pub open spec fn resume_steps_of(listen: bool) -> Seq<ResumeStep> {
    let after = seq![ResumeStep::ResetBackoff, ResumeStep::RequestConfig, ResumeStep::Drain];
    if listen {
        seq![ResumeStep::TakeOverCharacteristics, ResumeStep::ListenForNotifications] + after
    } else {
        seq![ResumeStep::TakeOverCharacteristics] + after
    }
}

/// The steps for a link that is up again: the new characteristics are taken over,
/// announcements are listened for where `listen` says so, and the radio is asked once
/// for its configuration and drained once.
pub fn resume_steps(listen: bool) -> (r: Vec<ResumeStep>)
    ensures
        r@ == resume_steps_of(listen),
{
    let mut r: Vec<ResumeStep> = vec![ResumeStep::TakeOverCharacteristics];
    if listen {
        r.push(ResumeStep::ListenForNotifications);
    }
    r.push(ResumeStep::ResetBackoff);
    r.push(ResumeStep::RequestConfig);
    r.push(ResumeStep::Drain);
    assert(r@ =~= resume_steps_of(listen));
    r
}

/// What a read of the outbox gave: a packet, or nothing when the radio has none.
pub fn read_from_radio(bytes: Vec<u8>) -> (r: Option<Vec<u8>>)
    ensures
        r == (if bytes@.len() == 0 {
            None
        } else {
            Some(bytes)
        }),
{
    if bytes.len() == 0 {
        None
    } else {
        Some(bytes)
    }
}

impl BleLink {
    /// A link that was just opened.
    pub fn new(has_from_num: bool) -> (r: Self)
        ensures
            r == new_link(has_from_num),
            link_wf(r),
    {
        BleLink {
            has_from_num,
            stopped: false,
            drain_active: false,
            drain_pending: false,
            reconnecting: false,
            wrote: false,
        }
    }

    /// Asks for a drain of the outbox; says whether the caller has to start one. While
    /// a drain is in flight the request is only noted.
    pub fn schedule_ble_drain(&mut self) -> (start: bool)
        ensures
            *final(self) == after_request(*old(self)),
            start == request_starts(*old(self)),
            link_wf(*old(self)) ==> link_wf(*final(self)),
    {
        if self.stopped {
            return false;
        }
        if self.drain_active {
            self.drain_pending = true;
            return false;
        }
        self.drain_active = true;
        true
    }

    /// What a drain does next: before its first read (`last` is `None`), or after a
    /// read with this outcome. It reads until the radio has nothing more.
    pub fn drain_step(&self, last: Option<ReadOutcome>) -> (r: DrainStep)
        ensures
            r == (if !self.stopped && (last is None || last == Some(ReadOutcome::Data)) {
                DrainStep::Read
            } else {
                DrainStep::Finish
            }),
    {
        if self.stopped {
            return DrainStep::Finish;
        }
        match last {
            None => DrainStep::Read,
            Some(ReadOutcome::Data) => DrainStep::Read,
            Some(ReadOutcome::Empty) => DrainStep::Finish,
            Some(ReadOutcome::Failed) => DrainStep::Finish,
        }
    }

    /// Ends a drain; says whether the caller has to start the next one, because data
    /// was announced meanwhile.
    pub fn finish_drain(&mut self) -> (start: bool)
        ensures
            *final(self) == after_finish(*old(self)),
            start == finish_starts(*old(self)),
            link_wf(*final(self)),
    {
        self.drain_active = false;
        if self.drain_pending {
            self.drain_pending = false;
            self.schedule_ble_drain()
        } else {
            false
        }
    }

    /// Notes that something was written to the radio.
    pub fn note_write(&mut self)
        ensures
            *final(self) == (BleLink { wrote: true, ..*old(self) }),
    {
        self.wrote = true;
    }

    /// What the polling loop does before a read.
    pub fn poll_start(&self) -> (r: PollStep)
        ensures
            r == (if self.stopped {
                PollStep::Stop
            } else {
                PollStep::Read
            }),
    {
        if self.stopped {
            PollStep::Stop
        } else {
            PollStep::Read
        }
    }

    /// What the polling loop does after a read: data is followed by the next read at
    /// once; an empty outbox by a pause, short right after a write.
    pub fn poll_step(&mut self, outcome: ReadOutcome) -> (r: PollStep)
        ensures
            r == (match outcome {
                ReadOutcome::Data => PollStep::Read,
                ReadOutcome::Empty => PollStep::Sleep(
                    if old(self).wrote {
                        POLL_AFTER_WRITE_MS
                    } else {
                        POLL_IDLE_MS
                    },
                ),
                ReadOutcome::Failed => PollStep::Fail,
            }),
            *final(self) == (if outcome is Empty {
                BleLink { wrote: false, ..*old(self) }
            } else {
                *old(self)
            }),
    {
        match outcome {
            ReadOutcome::Data => PollStep::Read,
            ReadOutcome::Empty => {
                let ms: i32 = if self.wrote {
                    POLL_AFTER_WRITE_MS
                } else {
                    POLL_IDLE_MS
                };
                self.wrote = false;
                PollStep::Sleep(ms)
            },
            ReadOutcome::Failed => PollStep::Fail,
        }
    }

    /// The link dropped, or a retry failed: starts a reconnect campaign. None is
    /// started after the user ended the connection, nor while one is running.
    pub fn begin_reconnect(&mut self) -> (r: Option<Campaign>)
        ensures
            r == (if campaign_starts(*old(self)) {
                Some(Campaign { stage: CampaignStage::Planning })
            } else {
                None
            }),
            *final(self) == after_loss(*old(self)),
    {
        if self.stopped || self.reconnecting {
            return None;
        }
        self.reconnecting = true;
        Some(Campaign { stage: CampaignStage::Planning })
    }

    /// What a campaign does next. `listener` says whether the page has a handler for
    /// notifications. An event that the campaign does not wait for changes nothing.
    pub fn ble_reconnect_loop(
        &mut self,
        campaign: &mut Campaign,
        listener: bool,
        event: ReconnectEvent,
    ) -> (r: ReconnectStep)
        ensures
            r == reconnect_step_of(*old(self), old(campaign).stage, listener, event),
            *final(self) == link_after_step(*old(self), event, r),
            final(campaign).stage == stage_after_step(old(campaign).stage, r),
    {
        match (campaign.stage, event) {
            (
                CampaignStage::Planning,
                ReconnectEvent::Planning { gave_up, delay_ms, attempts },
            ) => {
                if self.stopped || gave_up {
                    campaign.stage = CampaignStage::Ended;
                    self.reconnecting = false;
                    ReconnectStep::Finish { gave_up: !self.stopped }
                } else {
                    campaign.stage = CampaignStage::Waiting;
                    ReconnectStep::Wait {
                        ms: #[verifier::truncate]
                        (delay_ms as i32),
                        attempt: attempts as u64 + 1,
                    }
                }
            },
            (CampaignStage::Waiting, ReconnectEvent::Waited) => {
                if self.stopped {
                    campaign.stage = CampaignStage::Ended;
                    self.reconnecting = false;
                    ReconnectStep::Finish { gave_up: false }
                } else {
                    campaign.stage = CampaignStage::Discovering;
                    ReconnectStep::Discover
                }
            },
            (CampaignStage::Discovering, ReconnectEvent::Discovered { has_from_num }) => {
                campaign.stage = CampaignStage::Resuming;
                self.has_from_num = has_from_num;
                ReconnectStep::Resume { listen: has_from_num && listener }
            },
            (CampaignStage::Discovering, ReconnectEvent::DiscoverFailed) => {
                campaign.stage = CampaignStage::Planning;
                ReconnectStep::RecordFailure
            },
            (CampaignStage::Resuming, ReconnectEvent::Resumed) => {
                campaign.stage = CampaignStage::Ended;
                self.reconnecting = false;
                ReconnectStep::Finish { gave_up: false }
            },
            _ => ReconnectStep::Nothing,
        }
    }

    /// The user ends the connection.
    pub fn stop(&mut self)
        ensures
            *final(self) == (BleLink { stopped: true, ..*old(self) }),
    {
        self.stopped = true;
    }
}

/// What can happen to a link, as far as drains go.
pub enum LinkOp {
    /// Data was announced, or a drain was asked for.
    Request,
    /// The drain in flight ended.
    Finish,
    /// The user ended the connection.
    Stop,
}

/// The flags of a link after a course of events.
pub open spec fn link_after(link: BleLink, ops: Seq<LinkOp>) -> BleLink
    decreases ops.len(),
{
    if ops.len() == 0 {
        link
    } else {
        let before = link_after(link, ops.drop_last());
        match ops.last() {
            LinkOp::Request => after_request(before),
            LinkOp::Finish => after_finish(before),
            LinkOp::Stop => BleLink { stopped: true, ..before },
        }
    }
}

/// How many drains are in flight after a course of events.
pub open spec fn drains_in_flight(link: BleLink, ops: Seq<LinkOp>) -> int
    decreases ops.len(),
{
    if ops.len() == 0 {
        if link.drain_active {
            1
        } else {
            0
        }
    } else {
        let before = link_after(link, ops.drop_last());
        let running = drains_in_flight(link, ops.drop_last());
        match ops.last() {
            LinkOp::Request => running + if request_starts(before) {
                1int
            } else {
                0
            },
            LinkOp::Finish => running - 1 + if finish_starts(before) {
                1int
            } else {
                0
            },
            LinkOp::Stop => running,
        }
    }
}

/// A drain ends only where one is in flight.
pub open spec fn ends_are_real(link: BleLink, ops: Seq<LinkOp>) -> bool {
    forall|k: int|
        0 <= k < ops.len() && (#[trigger] ops[k]) is Finish ==> drains_in_flight(link, ops.take(k))
            > 0
}

/// Two drains never overlap: whatever happens to a link, the outbox is read by one
/// drain at a time, and the flag says whether there is one.
pub proof fn drains_never_overlap(link: BleLink, ops: Seq<LinkOp>)
    requires
        link_wf(link),
        ends_are_real(link, ops),
    ensures
        link_wf(link_after(link, ops)),
        drains_in_flight(link, ops) == (if link_after(link, ops).drain_active {
            1int
        } else {
            0
        }),
    decreases ops.len(),
{
    if ops.len() > 0 {
        let init = ops.drop_last();
        assert forall|k: int| 0 <= k < init.len() && (#[trigger] init[k]) is Finish implies
            drains_in_flight(link, init.take(k)) > 0 by {
            assert(ops[k] is Finish);
            assert(init.take(k) =~= ops.take(k));
        }
        drains_never_overlap(link, init);
        if ops.last() is Finish {
            assert(ops[ops.len() - 1] is Finish);
            assert(ops.take(ops.len() - 1) =~= init);
        }
    }
}

/// No announcement is lost: a request that comes while a drain is in flight makes the
/// end of that drain start another one, unless the user ends the connection.
pub proof fn no_announcement_is_lost(link: BleLink)
    requires
        link.drain_active,
        !link.stopped,
    ensures
        !request_starts(link),
        finish_starts(after_request(link)),
        after_finish(after_request(link)).drain_active,
{
}

/// What can happen to a link, as far as reconnect campaigns go.
pub enum CampaignOp {
    /// The loss of the link was noticed; retries that fail are noticed too.
    Loss,
    /// The running campaign ended.
    End,
    /// The user ended the connection.
    Stop,
}

/// The flags of a link after a course of losses and campaigns.
pub open spec fn link_after_campaigns(link: BleLink, ops: Seq<CampaignOp>) -> BleLink
    decreases ops.len(),
{
    if ops.len() == 0 {
        link
    } else {
        let before = link_after_campaigns(link, ops.drop_last());
        match ops.last() {
            CampaignOp::Loss => after_loss(before),
            CampaignOp::End => BleLink { reconnecting: false, ..before },
            CampaignOp::Stop => BleLink { stopped: true, ..before },
        }
    }
}

/// How many campaigns are running after a course of losses and campaigns.
pub open spec fn campaigns_running(link: BleLink, ops: Seq<CampaignOp>) -> int
    decreases ops.len(),
{
    if ops.len() == 0 {
        if link.reconnecting {
            1
        } else {
            0
        }
    } else {
        let running = campaigns_running(link, ops.drop_last());
        match ops.last() {
            CampaignOp::Loss => running + if campaign_starts(
                link_after_campaigns(link, ops.drop_last()),
            ) {
                1int
            } else {
                0
            },
            CampaignOp::End => running - 1,
            CampaignOp::Stop => running,
        }
    }
}

/// A campaign ends only where one is running.
pub open spec fn campaign_ends_are_real(link: BleLink, ops: Seq<CampaignOp>) -> bool {
    forall|k: int|
        0 <= k < ops.len() && (#[trigger] ops[k]) is End ==> campaigns_running(link, ops.take(k))
            > 0
}

/// Two reconnect campaigns never overlap, however often the link is lost, and the
/// flag says whether there is one.
pub proof fn campaigns_never_overlap(link: BleLink, ops: Seq<CampaignOp>)
    requires
        campaign_ends_are_real(link, ops),
    ensures
        campaigns_running(link, ops) == (if link_after_campaigns(link, ops).reconnecting {
            1int
        } else {
            0
        }),
    decreases ops.len(),
{
    if ops.len() > 0 {
        let init = ops.drop_last();
        assert forall|k: int| 0 <= k < init.len() && (#[trigger] init[k]) is End implies
            campaigns_running(link, init.take(k)) > 0 by {
            assert(ops[k] is End);
            assert(init.take(k) =~= ops.take(k));
        }
        campaigns_never_overlap(link, init);
        if ops.last() is End {
            assert(ops[ops.len() - 1] is End);
            assert(ops.take(ops.len() - 1) =~= init);
        }
    }
}

/// One moment of a campaign: the flags of the link and what happened.
pub struct CampaignMoment {
    pub link: BleLink,
    pub event: ReconnectEvent,
}

/// What a new campaign waits for after a course of moments.
pub open spec fn stage_at(listener: bool, moments: Seq<CampaignMoment>) -> CampaignStage
    decreases moments.len(),
{
    if moments.len() == 0 {
        CampaignStage::Planning
    } else {
        let before = stage_at(listener, moments.drop_last());
        let m = moments.last();
        stage_after_step(before, reconnect_step_of(m.link, before, listener, m.event))
    }
}

/// What a new campaign does at the `k`-th moment of its course.
pub open spec fn step_at(
    listener: bool,
    moments: Seq<CampaignMoment>,
    k: int,
) -> ReconnectStep {
    reconnect_step_of(
        moments[k].link,
        stage_at(listener, moments.take(k)),
        listener,
        moments[k].event,
    )
}

proof fn lemma_stage_step(listener: bool, moments: Seq<CampaignMoment>, k: int)
    requires
        0 <= k < moments.len(),
    ensures
        stage_at(listener, moments.take(k + 1)) == stage_after_step(
            stage_at(listener, moments.take(k)),
            step_at(listener, moments, k),
        ),
{
    assert(moments.take(k + 1).drop_last() =~= moments.take(k));
}

proof fn lemma_after_success(listener: bool, moments: Seq<CampaignMoment>, k: int, j: int)
    requires
        0 <= k < j <= moments.len(),
        step_at(listener, moments, k) is Resume,
    ensures
        stage_at(listener, moments.take(j)) is Resuming || stage_at(
            listener,
            moments.take(j),
        ) is Ended,
    decreases j,
{
    lemma_stage_step(listener, moments, j - 1);
    if j - 1 > k {
        lemma_after_success(listener, moments, k, j - 1);
    }
}

/// The first success ends a campaign: whatever happens afterwards, it neither pauses
/// nor connects again nor counts a failure nor resumes a second time, and the one thing
/// left is its end, which clears the campaign's flag.
pub proof fn success_ends_the_campaign(
    listener: bool,
    moments: Seq<CampaignMoment>,
    k: int,
    j: int,
)
    requires
        0 <= k < j < moments.len(),
        step_at(listener, moments, k) is Resume,
    ensures
        step_at(listener, moments, j) == (ReconnectStep::Finish { gave_up: false }) || step_at(
            listener,
            moments,
            j,
        ) is Nothing,
        step_at(listener, moments, j) is Finish ==> !link_after_step(
            moments[j].link,
            moments[j].event,
            step_at(listener, moments, j),
        ).reconnecting,
        moments[j].event is Resumed && (forall|i: int|
            k < i < j ==> !((#[trigger] moments[i]).event is Resumed)) ==> step_at(
            listener,
            moments,
            j,
        ) is Finish,
{
    lemma_after_success(listener, moments, k, j);
    if forall|i: int| k < i < j ==> !((#[trigger] moments[i]).event is Resumed) {
        lemma_still_resuming(listener, moments, k, j);
    }
}

proof fn lemma_still_resuming(listener: bool, moments: Seq<CampaignMoment>, k: int, j: int)
    requires
        0 <= k < j <= moments.len(),
        step_at(listener, moments, k) is Resume,
        forall|i: int| k < i < j ==> !((#[trigger] moments[i]).event is Resumed),
    ensures
        stage_at(listener, moments.take(j)) is Resuming,
    decreases j,
{
    lemma_stage_step(listener, moments, j - 1);
    if j - 1 > k {
        lemma_still_resuming(listener, moments, k, j - 1);
        assert(!(moments[j - 1].event is Resumed));
    }
}

proof fn lemma_ended(listener: bool, moments: Seq<CampaignMoment>, k: int, j: int)
    requires
        0 <= k < j <= moments.len(),
        step_at(listener, moments, k) is Finish,
    ensures
        stage_at(listener, moments.take(j)) is Ended,
    decreases j,
{
    lemma_stage_step(listener, moments, j - 1);
    if j - 1 > k {
        lemma_ended(listener, moments, k, j - 1);
    }
}

/// Nothing follows the end of a campaign, so that it ends once.
pub proof fn a_campaign_ends_once(
    listener: bool,
    moments: Seq<CampaignMoment>,
    k: int,
    j: int,
)
    requires
        0 <= k < j < moments.len(),
        step_at(listener, moments, k) is Finish,
    ensures
        step_at(listener, moments, j) is Nothing,
{
    lemma_ended(listener, moments, k, j);
}

/// A link that is up again is asked for its configuration once and drained once, by
/// the new characteristics.
pub proof fn resuming_asks_and_drains_once(listen: bool, i: int)
    requires
        0 <= i < resume_steps_of(listen).len(),
    ensures
        resume_steps_of(listen)[i] is TakeOverCharacteristics <==> i == 0,
        resume_steps_of(listen)[i] is RequestConfig <==> i == resume_steps_of(listen).len() - 2,
        resume_steps_of(listen)[i] is Drain <==> i == resume_steps_of(listen).len() - 1,
        resume_steps_of(listen)[i] is ListenForNotifications <==> listen && i == 1,
{
}

/// After the user ended the connection no drain starts, no campaign starts, and a
/// running campaign does not start another pause or attempt.
pub proof fn a_stop_is_final(
    link: BleLink,
    stage: CampaignStage,
    listener: bool,
    event: ReconnectEvent,
)
    requires
        link.stopped,
    ensures
        !request_starts(link),
        !finish_starts(link),
        !campaign_starts(link),
        !(reconnect_step_of(link, stage, listener, event) is Wait),
        !(reconnect_step_of(link, stage, listener, event) is Discover),
        stage is Planning && event is Planning || stage is Waiting && event is Waited
            ==> reconnect_step_of(link, stage, listener, event) == (ReconnectStep::Finish {
            gave_up: false,
        }),
{
}

} // verus!
