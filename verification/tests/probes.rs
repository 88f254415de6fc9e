use torchflower::runs::{ChestRoomBotValidation, RealServerValidation, RunSetupError};
use torchflower::observe::{ObservedItemEntity, Vec3Bits};
use torchflower::menu::{BlockTarget, MenuClickMethod, MenuClickTarget, RTP_MENU_MAX_CLICK_ATTEMPTS};
use torchflower::probes::{BreakAction, MovementAction, MovementClock, PickupOutcome, RtpAction, RtpInputs};
use torchflower::status::CapabilityStatus;
use torchflower::validation::ValidationState;

fn inputs() -> RtpInputs {
    RtpInputs {
        loaded_world: false,
        click_menu: true,
        close_container: true,
        terrain_hint_available: false,
        rtp_wait_millis: 75_000,
        menu_open_wait_millis: 75_000,
        menu_click_wait_millis: 12_000,
    }
}

fn menu_entry() -> MenuClickTarget {
    MenuClickTarget {
        window_id: 5,
        slot: 13,
        item_id: 2,
        stack_id: 9,
        container_type: 0,
        dynamic_container_id: None,
        priority: 220,
    }
}

#[test]
fn break_probe_mines_then_finishes_then_gives_up() {
    let target = BlockTarget { x: 1, y: 63, z: 1 };
    let mut movement = ValidationState::new();
    assert_eq!(movement.break_step(0), BreakAction::StartProbe);

    movement.probe.break_probe_started_at = Some(1_000);
    assert_eq!(movement.break_step(1_100), BreakAction::MissingTarget);

    movement.targets.break_target = Some(target);
    assert_eq!(movement.break_step(1_100), BreakAction::Continue { target, face: 1 });
    assert_eq!(movement.break_step(1_250), BreakAction::Wait);
    assert_eq!(movement.break_step(1_300), BreakAction::Continue { target, face: 1 });
    assert_eq!(movement.break_step(7_000), BreakAction::Finish { target, face: 1 });
    assert!(movement.probe.break_stop_sent);
    assert_eq!(movement.break_step(11_999), BreakAction::Wait);
    assert_eq!(movement.break_step(12_000), BreakAction::ConfirmationFailed);
    assert!(movement.probe.break_confirmation_failed_reported);
    assert_eq!(movement.break_step(13_000), BreakAction::Wait);
}

#[test]
fn pickup_walks_probes_inventory_and_times_out() {
    let mut movement = ValidationState::new();
    let step = movement.pickup_step(10_000, true);
    assert!(step.started && step.inventory_probe);
    assert_eq!(step.outcome, PickupOutcome::Frame { frame_index: 1 });

    let step = movement.pickup_step(10_100, true);
    assert!(!step.started && !step.inventory_probe);
    assert_eq!(step.outcome, PickupOutcome::Wait);

    let step = movement.pickup_step(11_000, false);
    assert!(step.inventory_probe);
    assert_eq!(step.outcome, PickupOutcome::NoTarget);

    let step = movement.pickup_step(18_001, true);
    assert_eq!(step.outcome, PickupOutcome::Failed { prebreak: false });
    assert!(movement.probe.pickup_failed_reported);
    assert_eq!(movement.pickup_step(18_500, true).outcome, PickupOutcome::Expired);

    movement.probe.pickup_terminal_failed = true;
    assert_eq!(movement.pickup_step(19_000, true).outcome, PickupOutcome::Terminal);
}

#[test]
fn rtp_phase_sends_command_clicks_menu_and_probes_inventory() {
    let mut movement = ValidationState::new();
    let mut status = CapabilityStatus::default();

    let step = movement.rtp_step(&mut status, "/rtp", inputs(), 0);
    assert_eq!(step.action, RtpAction::SendCommand { attempt: 1 });
    assert!(status.chat);

    let step = movement.rtp_step(&mut status, "/rtp", inputs(), 1_000);
    assert_eq!(step.action, RtpAction::Wait);
    assert!(movement.rtp.waiting_for_menu_reported);

    movement.rtp.menu.item = Some(menu_entry());
    let step = movement.rtp_step(&mut status, "/rtp", inputs(), 2_000);
    assert_eq!(
        step.action,
        RtpAction::ClickMenu { item: menu_entry(), method: MenuClickMethod::StandaloneObservedConsume }
    );
    assert!(status.inventory_transactions);
    assert_eq!(movement.rtp.menu.click_attempts, 1);

    assert_eq!(movement.rtp_step(&mut status, "/rtp", inputs(), 3_000).action, RtpAction::Wait);

    movement.rtp.menu.click_attempts = RTP_MENU_MAX_CLICK_ATTEMPTS;
    let step = movement.rtp_step(&mut status, "/rtp", inputs(), 14_001);
    assert!(step.wait_finished);
    assert_eq!(step.action, RtpAction::CloseContainer { window_id: 5, window_type: 0 });

    let step = movement.rtp_step(&mut status, "/rtp", inputs(), 14_100);
    assert_eq!(step.action, RtpAction::InventoryProbe);
    assert!(movement.probe.inventory_probe_sent);
    assert_eq!(movement.rtp_step(&mut status, "/rtp", inputs(), 14_200).action, RtpAction::Inactive);
}

#[test]
fn rtp_phase_falls_back_when_no_menu_opens() {
    let mut movement = ValidationState::new();
    let mut status = CapabilityStatus::default();
    movement.rtp_step(&mut status, "/rtp", inputs(), 0);
    let step = movement.rtp_step(&mut status, "/rtp", inputs(), 75_000);
    assert_eq!(step.action, RtpAction::SendFallbackCommand { attempt: 2 });
    assert_eq!(movement.rtp.command_attempts, 2);
}

#[test]
fn rtp_phase_skips_teleport_in_loaded_world() {
    let mut movement = ValidationState::new();
    let mut status = CapabilityStatus::default();
    let mut loaded = inputs();
    loaded.loaded_world = true;
    loaded.close_container = false;
    let step = movement.rtp_step(&mut status, "/rtp", loaded, 0);
    assert!(step.loaded_world_skip);
    assert_eq!(step.action, RtpAction::InventoryProbe);
    assert!(!movement.rtp.command_sent);
}

#[test]
fn rtp_phase_gives_up_without_terrain_after_marker_hint() {
    let mut movement = ValidationState::new();
    let mut status = CapabilityStatus::default();
    let mut no_click = inputs();
    no_click.click_menu = false;
    movement.rtp_step(&mut status, "/rtp", no_click, 0);
    movement.rtp.marker_position_hint_received = true;
    movement.rtp.position_hint_received = true;
    movement.rtp.position_hint_received_at = Some(0);
    assert_eq!(movement.rtp_step(&mut status, "/rtp", no_click, 10_000).action, RtpAction::AwaitTerrainHint);
    assert_eq!(
        movement.rtp_step(&mut status, "/rtp", no_click, 75_000).action,
        RtpAction::TerrainHintMissing { first_report: true }
    );
    assert!(movement.probe.pickup_terminal_failed);
}

#[test]
fn gameplay_timeout_reported_once_outside_pickup() {
    let mut movement = ValidationState::new();
    let mut status = CapabilityStatus::default();
    status.block_breaking = true;
    movement.probe.gameplay_probe_sent = true;
    movement.probe.gameplay_probe_sent_at = Some(1_000);
    assert!(!movement.report_gameplay_timeout(&status, 30_999));
    movement.probe.pickup_probe_started_at = Some(25_000);
    assert!(!movement.report_gameplay_timeout(&status, 31_000));
    assert!(movement.report_gameplay_timeout(&status, 33_001));
    assert!(movement.probe.gameplay_timeout_reported);
    assert!(!movement.report_gameplay_timeout(&status, 40_000));

    let mut done = ValidationState::new();
    let mut confirmed = CapabilityStatus::default();
    confirmed.block_breaking = true;
    confirmed.block_placing = true;
    done.probe.gameplay_probe_sent = true;
    done.probe.gameplay_probe_sent_at = Some(0);
    assert!(!done.report_gameplay_timeout(&confirmed, 60_000));
}

#[test]
fn prebreak_pickup_starts_for_seen_item_entity() {
    let mut movement = ValidationState::new();
    let mut status = CapabilityStatus::default();
    movement.observed_item_entity = Some(ObservedItemEntity {
        entity_id: 1,
        runtime_entity_id: 2,
        item_id: 3,
        stack_id: None,
        position: Vec3Bits { x: 0, y: 0, z: 0 },
        velocity: Vec3Bits { x: 0, y: 0, z: 0 },
        item_bytes: Vec::new(),
    });
    assert!(!movement.start_prebreak_pickup(&mut status, true));
    status.movement = true;
    assert!(!movement.start_prebreak_pickup(&mut status, false));
    assert!(movement.start_prebreak_pickup(&mut status, true));
    assert!(movement.rtp.wait_done && movement.probe.inventory_probe_sent && movement.probe.pickup_prebreak);
    assert!(status.inventory_transactions);
}

#[test]
fn real_server_run_reads_its_settings() {
    let err = RealServerValidation::new("cfg".to_string(), 1u32).prepare(None, Some("h"), None, None).err();
    assert_eq!(err, Some(RunSetupError::MissingConfig("BEDROCK_VALIDATE_ACCOUNT_ID")));
    let err = RealServerValidation::new("cfg".to_string(), 1u32).prepare(Some("acct"), None, None, None).err();
    assert_eq!(err, Some(RunSetupError::MissingConfig("BEDROCK_VALIDATE_SERVER_HOST")));

    let (builder, duration) = RealServerValidation::new("cfg".to_string(), 1u32)
        .prepare(Some("acct"), Some("play.example.org"), Some("19133"), Some("2"))
        .unwrap();
    assert_eq!(duration, 5);
    let session = builder.build().unwrap();
    assert!(session.block_interaction_controller().can_modify_blocks());

    let (_, duration) = RealServerValidation::new("cfg".to_string(), 1u32)
        .prepare(Some("acct"), Some("h"), Some("not a port"), Some("5000"))
        .unwrap();
    assert_eq!(duration, 900);
    let (_, duration) = RealServerValidation::new("cfg".to_string(), 1u32)
        .prepare(Some("acct"), Some("h"), None, None)
        .unwrap();
    assert_eq!(duration, 300);
}

#[test]
fn chest_room_run_takes_first_nonblank_settings() {
    let run = ChestRoomBotValidation::new((), ());
    let err = run.prepare(&[None, Some("  ")], &[Some("h")], &[], None).err();
    assert_eq!(err, Some(RunSetupError::MissingConfig("ROOM_BOT_ACCOUNT_ID")));
    let err = run.prepare(&[Some("a")], &[Some(""), None], &[], None).err();
    assert_eq!(err, Some(RunSetupError::MissingConfig("ROOM_BOT_SERVER_HOST")));

    let plan = run
        .prepare(&[Some(" "), Some(" acct ")], &[Some("room.example.org")], &[Some(" 19140 ")], Some("7"))
        .unwrap();
    assert_eq!(plan.account_id, "acct");
    assert_eq!(plan.host, "room.example.org");
    assert_eq!(plan.port, 19140);
    assert_eq!(plan.expected_chests, 7);

    let plan = run.prepare(&[Some("a")], &[Some("h")], &[Some("x")], Some("many")).unwrap();
    assert_eq!(plan.port, 19132);
    assert_eq!(plan.expected_chests, 5);
}

#[test]
fn movement_check_sends_frames_then_reports() {
    let mut clock = MovementClock::new(0);
    let mut status = CapabilityStatus::default();
    assert_eq!(clock.step(&mut status, false, 0), MovementAction::Forward { frame_index: 1 });
    assert_eq!(clock.step(&mut status, false, 20), MovementAction::Idle);
    assert_eq!(clock.step(&mut status, false, 50), MovementAction::Forward { frame_index: 2 });
    assert_eq!(clock.step(&mut status, false, 9_500), MovementAction::Idle);
    assert_eq!(clock.step(&mut status, false, 10_000), MovementAction::Completed { reported: true, idle_frame: Some(1) });
    assert!(status.movement);
    assert_eq!(clock.step(&mut status, false, 10_010), MovementAction::Completed { reported: false, idle_frame: None });

    let mut corrected = MovementClock::new(0);
    corrected.correction_count = 2;
    let mut status = CapabilityStatus::default();
    status.movement = true;
    corrected.step(&mut status, false, 10_000);
    assert!(!status.movement);
}

#[test]
fn movement_check_waits_for_first_position_hint() {
    let mut clock = MovementClock::new(0);
    let mut status = CapabilityStatus::default();
    assert_eq!(clock.step(&mut status, true, 100), MovementAction::AwaitInitialHint { first_report: true });
    assert_eq!(clock.step(&mut status, true, 200), MovementAction::AwaitInitialHint { first_report: false });
    assert_eq!(clock.step(&mut status, true, 3_000), MovementAction::Forward { frame_index: 1 });
    assert_eq!(clock.started_at, 3_000);
}
