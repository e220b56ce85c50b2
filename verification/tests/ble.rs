//! The Bluetooth link.

use voicetastic_web::ble::{
    read_from_radio, resume_steps, BleLink, Campaign, CampaignStage, DrainStep, PollStep,
    ReadOutcome, ReconnectEvent, ReconnectStep, ResumeStep, FROM_NUM_CHARACTERISTIC, FROM_RADIO_CHARACTERISTIC, MESHTASTIC_SERVICE_UUID,
    POLL_AFTER_WRITE_MS, POLL_IDLE_MS, TO_RADIO_CHARACTERISTIC,
};

#[test]
fn service_and_characteristics() {
    assert_eq!(MESHTASTIC_SERVICE_UUID, "6ba1b218-15a8-461f-9fa8-5dcae273eafd");
    assert_eq!(TO_RADIO_CHARACTERISTIC, "f75c76d2-129e-4dad-a1dd-7866124401e7");
    assert_eq!(FROM_RADIO_CHARACTERISTIC, "2c55e69e-4993-11ed-b878-0242ac120002");
    assert_eq!(FROM_NUM_CHARACTERISTIC, "ed9da18c-a800-4f66-a670-aa7547e34453");
}

#[test]
fn an_empty_read_is_nothing_pending() {
    assert_eq!(read_from_radio(vec![]), None);
    assert_eq!(read_from_radio(vec![0]), Some(vec![0]));
}

#[test]
fn one_drain_at_a_time() {
    let mut link = BleLink::new(true);
    assert!(link.schedule_ble_drain());
    assert!(!link.schedule_ble_drain());
    assert!(!link.schedule_ble_drain());
    // The end of the first drain starts exactly one more.
    assert!(link.finish_drain());
    assert!(link.drain_active);
    assert!(!link.finish_drain());
    assert!(!link.drain_active);
    assert!(link.schedule_ble_drain());
}

#[test]
fn a_drain_reads_until_empty() {
    let mut link = BleLink::new(true);
    link.schedule_ble_drain();
    assert_eq!(link.drain_step(None), DrainStep::Read);
    assert_eq!(link.drain_step(Some(ReadOutcome::Data)), DrainStep::Read);
    assert_eq!(link.drain_step(Some(ReadOutcome::Empty)), DrainStep::Finish);
    assert_eq!(link.drain_step(Some(ReadOutcome::Failed)), DrainStep::Finish);
    link.stop();
    assert_eq!(link.drain_step(None), DrainStep::Finish);
    assert_eq!(link.drain_step(Some(ReadOutcome::Data)), DrainStep::Finish);
}

#[test]
fn no_drain_after_a_stop() {
    let mut link = BleLink::new(true);
    assert!(link.schedule_ble_drain());
    assert!(!link.schedule_ble_drain());
    link.stop();
    assert!(!link.finish_drain());
    assert!(!link.drain_active);
    assert!(!link.schedule_ble_drain());
}

#[test]
fn polling_is_tight_after_a_write() {
    assert_eq!((POLL_AFTER_WRITE_MS, POLL_IDLE_MS), (50, 250));
    let mut link = BleLink::new(false);
    assert_eq!(link.poll_start(), PollStep::Read);
    assert_eq!(link.poll_step(ReadOutcome::Empty), PollStep::Sleep(250));
    link.note_write();
    assert_eq!(link.poll_step(ReadOutcome::Data), PollStep::Read);
    assert_eq!(link.poll_step(ReadOutcome::Empty), PollStep::Sleep(50));
    assert_eq!(link.poll_step(ReadOutcome::Empty), PollStep::Sleep(250));
    assert_eq!(link.poll_step(ReadOutcome::Failed), PollStep::Fail);
    link.stop();
    assert_eq!(link.poll_start(), PollStep::Stop);
}

fn planning(gave_up: bool, delay_ms: u64, attempts: u32) -> ReconnectEvent {
    ReconnectEvent::Planning { gave_up, delay_ms, attempts }
}

fn campaign(stage: CampaignStage) -> Campaign {
    Campaign { stage }
}

#[test]
fn one_campaign_at_a_time() {
    let mut link = BleLink::new(true);
    let mut c = link.begin_reconnect().unwrap();
    assert_eq!(c, campaign(CampaignStage::Planning));
    assert_eq!(link.begin_reconnect(), None);
    assert_eq!(
        link.ble_reconnect_loop(&mut c, true, planning(true, 1, 9)),
        ReconnectStep::Finish { gave_up: true }
    );
    assert!(!link.reconnecting);
    assert!(link.begin_reconnect().is_some());
    // The campaign that is over does not touch the new one.
    assert_eq!(
        link.ble_reconnect_loop(&mut c, true, planning(true, 1, 9)),
        ReconnectStep::Nothing
    );
    assert!(link.reconnecting);
    let mut stopped = BleLink::new(true);
    stopped.stop();
    assert_eq!(stopped.begin_reconnect(), None);
}

#[test]
fn a_campaign_waits_discovers_and_resumes() {
    let mut link = BleLink::new(false);
    let mut c = link.begin_reconnect().unwrap();
    assert_eq!(
        link.ble_reconnect_loop(&mut c, true, planning(false, 1000, 0)),
        ReconnectStep::Wait { ms: 1000, attempt: 1 }
    );
    assert_eq!(
        link.ble_reconnect_loop(&mut c, true, ReconnectEvent::Waited),
        ReconnectStep::Discover
    );
    assert_eq!(
        link.ble_reconnect_loop(&mut c, true, ReconnectEvent::DiscoverFailed),
        ReconnectStep::RecordFailure
    );
    assert_eq!(
        link.ble_reconnect_loop(&mut c, true, planning(false, 2000, 1)),
        ReconnectStep::Wait { ms: 2000, attempt: 2 }
    );
    link.ble_reconnect_loop(&mut c, true, ReconnectEvent::Waited);
    assert_eq!(
        link.ble_reconnect_loop(&mut c, true, ReconnectEvent::Discovered { has_from_num: true }),
        ReconnectStep::Resume { listen: true }
    );
    assert!(link.has_from_num);
    assert!(link.reconnecting);
    // Nothing but the end follows the success.
    for event in [
        planning(false, 1, 0),
        ReconnectEvent::Waited,
        ReconnectEvent::DiscoverFailed,
        ReconnectEvent::Discovered { has_from_num: false },
    ] {
        assert_eq!(link.ble_reconnect_loop(&mut c, true, event), ReconnectStep::Nothing);
    }
    assert!(link.has_from_num);
    assert_eq!(
        link.ble_reconnect_loop(&mut c, true, ReconnectEvent::Resumed),
        ReconnectStep::Finish { gave_up: false }
    );
    assert!(!link.reconnecting);
    assert_eq!(c, campaign(CampaignStage::Ended));
    assert_eq!(
        link.ble_reconnect_loop(&mut c, true, ReconnectEvent::Resumed),
        ReconnectStep::Nothing
    );
}

#[test]
fn listening_needs_a_characteristic_and_a_handler() {
    for (has_from_num, listener, listen) in
        [(true, true, true), (true, false, false), (false, true, false), (false, false, false)]
    {
        let mut link = BleLink::new(true);
        let mut c = campaign(CampaignStage::Discovering);
        assert_eq!(
            link.ble_reconnect_loop(&mut c, listener, ReconnectEvent::Discovered { has_from_num }),
            ReconnectStep::Resume { listen }
        );
        assert_eq!(link.has_from_num, has_from_num);
    }
}

#[test]
fn steps_of_a_link_that_is_up_again() {
    assert_eq!(
        resume_steps(true),
        vec![
            ResumeStep::TakeOverCharacteristics,
            ResumeStep::ListenForNotifications,
            ResumeStep::ResetBackoff,
            ResumeStep::RequestConfig,
            ResumeStep::Drain,
        ]
    );
    assert_eq!(
        resume_steps(false),
        vec![
            ResumeStep::TakeOverCharacteristics,
            ResumeStep::ResetBackoff,
            ResumeStep::RequestConfig,
            ResumeStep::Drain,
        ]
    );
}

#[test]
fn a_stop_ends_a_campaign() {
    for (stage, event) in [
        (CampaignStage::Planning, planning(false, 1, 0)),
        (CampaignStage::Planning, planning(true, 1, 0)),
        (CampaignStage::Waiting, ReconnectEvent::Waited),
    ] {
        let mut link = BleLink::new(true);
        assert!(link.begin_reconnect().is_some());
        link.stop();
        let mut c = campaign(stage);
        assert_eq!(
            link.ble_reconnect_loop(&mut c, true, event),
            ReconnectStep::Finish { gave_up: false }
        );
        assert!(!link.reconnecting);
    }
}

#[test]
fn the_attempt_number_does_not_wrap() {
    let mut link = BleLink::new(true);
    let mut c = link.begin_reconnect().unwrap();
    assert_eq!(
        link.ble_reconnect_loop(&mut c, true, planning(false, 5, u32::MAX)),
        ReconnectStep::Wait { ms: 5, attempt: 4_294_967_296 }
    );
}
