//! Laws of the Bluetooth link, call by call.

use vstd::prelude::*;

use crate::ble::{
    read_from_radio, resume_steps, BleLink, Campaign, CampaignStage, DrainStep, PollStep,
    ReadOutcome, ReconnectEvent, ReconnectStep, ResumeStep,
};

verus! {

/// A new link does nothing yet, and announces data or does not.
pub proof fn a_new_link_is_idle(has_from_num: bool, r: BleLink)
    requires
        call_ensures(BleLink::new, (has_from_num,), r),
    ensures
        r.has_from_num == has_from_num,
        !r.stopped && !r.drain_active && !r.drain_pending && !r.reconnecting && !r.wrote,
{
}

/// An empty read gives nothing, any other its bytes.
pub proof fn an_empty_read_gives_nothing(bytes: Vec<u8>, r: Option<Vec<u8>>)
    requires
        call_ensures(read_from_radio, (bytes,), r),
    ensures
        r is None <==> bytes@.len() == 0,
        r matches Some(b) ==> b@ == bytes@,
{
}

/// A request to drain starts one where none is in flight, is noted where one is, and does
/// nothing after a stop.
pub proof fn a_request_starts_one_drain(link: &mut BleLink, start: bool)
    requires
        call_ensures(BleLink::schedule_ble_drain, (link,), start),
    ensures
        start <==> !old(link).stopped && !old(link).drain_active,
        start ==> *final(link) == (BleLink { drain_active: true, ..*old(link) }),
        !old(link).stopped && old(link).drain_active ==> *final(link) == (BleLink {
            drain_pending: true,
            ..*old(link)
        }),
        old(link).stopped ==> *final(link) == *old(link),
{
}

/// The end of a drain starts another if and only if one was asked for meanwhile and the
/// connection was not ended; nothing stays noted.
pub proof fn the_end_of_a_drain_honours_a_request(link: &mut BleLink, start: bool)
    requires
        call_ensures(BleLink::finish_drain, (link,), start),
    ensures
        start <==> old(link).drain_pending && !old(link).stopped,
        *final(link) == (BleLink {
            drain_active: start,
            drain_pending: false,
            ..*old(link)
        }),
{
}

/// A drain reads on as long as data comes and the connection was not ended.
pub proof fn a_drain_reads_while_data_comes(
    link: &BleLink,
    last: Option<ReadOutcome>,
    r: DrainStep,
)
    requires
        call_ensures(BleLink::drain_step, (link, last), r),
    ensures
        r is Read <==> !link.stopped && (match last {
            None => true,
            Some(ReadOutcome::Data) => true,
            Some(ReadOutcome::Empty) => false,
            Some(ReadOutcome::Failed) => false,
        }),
{
}

/// A request that comes during a drain is honoured by a drain after it, unless the
/// connection is ended in between.
pub proof fn a_request_during_a_drain_is_honoured(
    asked: &mut BleLink,
    started: bool,
    ended: &mut BleLink,
    again: bool,
)
    requires
        call_ensures(BleLink::schedule_ble_drain, (asked,), started),
        call_ensures(BleLink::finish_drain, (ended,), again),
        old(asked).drain_active,
        !old(asked).stopped,
        *old(ended) == *final(asked),
    ensures
        !started,
        again,
        final(ended).drain_active,
        !final(ended).drain_pending,
{
    a_request_starts_one_drain(asked, started);
    the_end_of_a_drain_honours_a_request(ended, again);
}

/// A write is noted, and nothing else.
pub proof fn a_write_is_noted(link: &mut BleLink)
    requires
        call_ensures(BleLink::note_write, (link,), ()),
    ensures
        *final(link) == (BleLink { wrote: true, ..*old(link) }),
{
}

/// The polling loop goes on until the connection is ended.
pub proof fn polling_goes_on_until_a_stop(link: &BleLink, r: PollStep)
    requires
        call_ensures(BleLink::poll_start, (link,), r),
    ensures
        link.stopped <==> r is Stop,
        !link.stopped <==> r is Read,
{
}

/// After a read the loop reads on at once where data came, ends where the read failed, and
/// else pauses: 50 ms right after a write, 250 ms otherwise. The write counts once.
pub proof fn polling_is_tight_right_after_a_write(
    link: &mut BleLink,
    outcome: ReadOutcome,
    r: PollStep,
)
    requires
        call_ensures(BleLink::poll_step, (link, outcome), r),
    ensures
        outcome is Data ==> r is Read,
        outcome is Failed ==> r is Fail,
        outcome is Empty && old(link).wrote ==> r == PollStep::Sleep(50),
        outcome is Empty && !old(link).wrote ==> r == PollStep::Sleep(250),
        outcome is Empty ==> *final(link) == (BleLink { wrote: false, ..*old(link) }),
        !(outcome is Empty) ==> *final(link) == *old(link),
{
}

/// The loss of the link starts a campaign where none runs and the connection was not
/// ended.
pub proof fn a_loss_starts_one_campaign(link: &mut BleLink, r: Option<Campaign>)
    requires
        call_ensures(BleLink::begin_reconnect, (link,), r),
    ensures
        r is Some <==> !old(link).stopped && !old(link).reconnecting,
        r matches Some(c) ==> c.stage is Planning,
        r is Some ==> *final(link) == (BleLink { reconnecting: true, ..*old(link) }),
        r is None ==> *final(link) == *old(link),
{
}

/// A campaign plans, pauses, tries, and goes on or tries again: each step comes in its
/// turn and at no other time, and a stop ends it before the next pause or attempt.
pub proof fn a_campaign_takes_its_course(
    link: &mut BleLink,
    campaign: &mut Campaign,
    listener: bool,
    event: ReconnectEvent,
    r: ReconnectStep,
)
    requires
        call_ensures(BleLink::ble_reconnect_loop, (link, campaign, listener, event), r),
    ensures
        r is Wait <==> old(campaign).stage is Planning && !old(link).stopped && (
        event matches ReconnectEvent::Planning { gave_up, .. } && !gave_up),
        r is Discover <==> old(campaign).stage is Waiting && event is Waited && !old(link).stopped,
        r is Resume <==> old(campaign).stage is Discovering && event is Discovered,
        r is RecordFailure <==> old(campaign).stage is Discovering && event is DiscoverFailed,
        r is Finish <==> (old(campaign).stage is Planning && (
        event matches ReconnectEvent::Planning { gave_up, .. } && (gave_up || old(link).stopped)))
            || (old(campaign).stage is Waiting && event is Waited && old(link).stopped) || (old(
            campaign,
        ).stage is Resuming && event is Resumed),
        r is Wait ==> final(campaign).stage is Waiting,
        r is Discover ==> final(campaign).stage is Discovering,
        r is Resume ==> final(campaign).stage is Resuming,
        r is RecordFailure ==> final(campaign).stage is Planning,
        r is Finish ==> final(campaign).stage is Ended,
        r is Nothing ==> final(campaign).stage == old(campaign).stage,
{
}

/// A campaign pauses as long as the backoff policy says, counts the attempt after the
/// failed ones, listens again where the new characteristics and the page allow it, says
/// that it gave up just when the policy did and the user did not end it, and changes the
/// link's flags in nothing else than this: what the new characteristics announce, and,
/// at its end, that it is over.
pub proof fn a_campaign_says_what_it_does(
    link: &mut BleLink,
    campaign: &mut Campaign,
    listener: bool,
    event: ReconnectEvent,
    r: ReconnectStep,
)
    requires
        call_ensures(BleLink::ble_reconnect_loop, (link, campaign, listener, event), r),
    ensures
        r matches ReconnectStep::Wait { ms, attempt } ==> (
        event matches ReconnectEvent::Planning { delay_ms, attempts, .. } && attempt == attempts + 1
            && ms == delay_ms as i32),
        r matches ReconnectStep::Resume { listen } ==> (
        event matches ReconnectEvent::Discovered { has_from_num } && (listen <==> has_from_num
            && listener) && *final(link) == (BleLink { has_from_num, ..*old(link) })),
        r matches ReconnectStep::Finish { gave_up } ==> (gave_up <==> event is Planning && !old(
            link,
        ).stopped) && *final(link) == (BleLink { reconnecting: false, ..*old(link) }),
        !(r is Resume) && !(r is Finish) ==> *final(link) == *old(link),
{
}

/// A link that is up again: new characteristics first, announcements where they are
/// listened for, then the backoff, one request and one drain, in this order.
pub proof fn resuming_has_its_order(listen: bool, r: Vec<ResumeStep>)
    requires
        call_ensures(resume_steps, (listen,), r),
    ensures
        listen ==> r@.len() == 5 && r@[0] is TakeOverCharacteristics
            && r@[1] is ListenForNotifications && r@[2] is ResetBackoff && r@[3] is RequestConfig
            && r@[4] is Drain,
        !listen ==> r@.len() == 4 && r@[0] is TakeOverCharacteristics && r@[1] is ResetBackoff
            && r@[2] is RequestConfig && r@[3] is Drain,
{
}

/// Ending the connection marks the link, and nothing else.
pub proof fn a_stop_marks_the_link(link: &mut BleLink)
    requires
        call_ensures(BleLink::stop, (link,), ()),
    ensures
        *final(link) == (BleLink { stopped: true, ..*old(link) }),
{
}

} // verus!
