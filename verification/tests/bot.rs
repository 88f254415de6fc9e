use torchflower::bot::{
    ActionScheduler, AutomationPolicy, BotAction, BotError, InventoryItem, InventoryTracker,
};

#[test]
fn automation_policy_requires_allowed_host() {
    let policy = AutomationPolicy::allow_for_hosts(&["example.org"]);
    assert!(policy
        .require_gameplay_action("example.org", "break_block")
        .is_ok());
    assert!(matches!(
        policy.require_gameplay_action("other.org", "break_block"),
        Err(BotError::HostNotAllowed(_))
    ));
}

#[test]
fn scheduler_preserves_action_order() {
    let mut scheduler = ActionScheduler::default();
    scheduler.schedule(BotAction::Jump);
    scheduler.schedule(BotAction::Chat("hello".to_string()));
    assert_eq!(scheduler.pop_next(), Some(BotAction::Jump));
    assert_eq!(
        scheduler.pop_next(),
        Some(BotAction::Chat("hello".to_string()))
    );
    assert!(scheduler.is_empty());
}

#[test]
fn inventory_tracker_selects_non_air_items() {
    let mut tracker = InventoryTracker::default();
    tracker.replace_items(vec![
        InventoryItem {
            slot: 0,
            item_id: 0,
            count: 0,
            display_name: None,
        },
        InventoryItem {
            slot: 1,
            item_id: 5,
            count: 2,
            display_name: Some("planks".to_string()),
        },
    ]);
    assert_eq!(tracker.selected_placeable().map(|item| item.slot), Some(1));
}
