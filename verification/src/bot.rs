//! Bot-side state: server addresses, inventory, the automation policy that
//! gates gameplay actions, the action queue and the session rules.
//!
//! Positions and rotations are carried as IEEE-754 single-precision bit
//! patterns; the library never computes with them.

use vstd::prelude::*;
use std::collections::VecDeque;
use std::time::Duration;
use crate::text::{chars_equal, lowercase_chars, normalized_host, str_chars, trim_char_vec};
use crate::status::{CapabilityStatus, texts};

verus! {

broadcast use vstd::string::group_string_axioms;

/// A Bedrock server host and UDP port.
#[derive(Debug, Clone, PartialEq)]
pub struct ServerAddress {
    pub host: String,
    pub port: u16,
}

impl ServerAddress {
    pub fn new(host: &str, port: u16) -> (r: Self)
        ensures
            r.host@ == host@,
            r.port == port,
    {
        ServerAddress { host: String::from_str(host), port }
    }

    /// A field-by-field copy.
    pub fn duplicate(&self) -> (r: Self)
        ensures
            r == *self,
    {
        ServerAddress { host: self.host.clone(), port: self.port }
    }
}

/// A position; each coordinate is the bit pattern of an `f32`.
#[derive(Debug, Clone, Copy, PartialEq, Eq)]
pub struct Position {
    pub x: u32,
    pub y: u32,
    pub z: u32,
}

impl Position {
    pub fn new(x: u32, y: u32, z: u32) -> (r: Self)
        ensures
            r == (Position { x, y, z }),
    {
        Position { x, y, z }
    }
}

/// A rotation; yaw and pitch are the bit patterns of `f32` degrees.
#[derive(Debug, Clone, Copy, PartialEq, Eq)]
pub struct Rotation {
    pub yaw: u32,
    pub pitch: u32,
}

impl Rotation {
    pub fn new(yaw: u32, pitch: u32) -> (r: Self)
        ensures
            r == (Rotation { yaw, pitch }),
    {
        Rotation { yaw, pitch }
    }
}

#[derive(Debug, Clone, Copy, PartialEq, Eq, Hash)]
pub struct BlockPosition {
    pub x: i32,
    pub y: i32,
    pub z: i32,
}

impl BlockPosition {
    pub fn new(x: i32, y: i32, z: i32) -> (r: Self)
        ensures
            r == (BlockPosition { x, y, z }),
    {
        BlockPosition { x, y, z }
    }
}

#[derive(Debug, Clone, PartialEq)]
pub struct InventoryItem {
    pub slot: u32,
    pub item_id: i32,
    pub count: u32,
    pub display_name: Option<String>,
}

/// Why a bot request was refused.
#[derive(Debug, Clone, PartialEq, Eq)]
pub enum BotError {
    /// An error of the engine underneath, by its message.
    Engine(String),
    MissingBuilderField(&'static str),
    NotConnected,
    UnsafeAutomationDisabled { action: &'static str },
    HostNotAllowed(String),
}

#[derive(Debug, Clone, PartialEq)]
pub enum Event {
    Connected,
    Spawned,
    Chat { sender: String, message: String },
    Disconnected { reason: Option<String> },
}

// ---------------------------------------------------------------------------
// Host normalisation
// ---------------------------------------------------------------------------

/// True when some allowed entry is `*` or names `host`, both normalised.
pub open spec fn hosts_permit(allowed: Seq<String>, host: Seq<char>) -> bool {
    exists|i: int|
        0 <= i < allowed.len() && (normalized_host(#[trigger] allowed[i]@) == seq!['*']
            || normalized_host(allowed[i]@) == normalized_host(host))
}

/// The host as the policy compares it.
pub fn normalize_host(host: &str) -> (r: Vec<char>)
    ensures
        r@ == normalized_host(host@),
{
    let chars: Vec<char> = str_chars(host);
    let trimmed_host: Vec<char> = trim_char_vec(&chars);
    lowercase_chars(&trimmed_host)
}

// ---------------------------------------------------------------------------
// Automation policy
// ---------------------------------------------------------------------------

/// Which servers the bot may take gameplay actions on.
#[derive(Debug, Clone)]
pub struct AutomationPolicy {
    pub allow_gameplay_actions: bool,
    pub allowed_hosts: Vec<String>,
}

impl Default for AutomationPolicy {
    fn default() -> (r: Self)
        ensures
            !r.allow_gameplay_actions,
            r.allowed_hosts@.len() == 0,
    {
        AutomationPolicy { allow_gameplay_actions: false, allowed_hosts: Vec::new() }
    }
}

impl AutomationPolicy {
    /// A policy that allows gameplay actions on exactly the given hosts.
    pub fn allow_for_hosts(hosts: &[&str]) -> (r: Self)
        ensures
            r.allow_gameplay_actions,
            r.allowed_hosts@.len() == hosts@.len(),
            forall|i: int| 0 <= i < hosts@.len() ==> #[trigger] r.allowed_hosts@[i]@ == hosts@[i]@,
    {
        let mut allowed_hosts: Vec<String> = Vec::new();
        let mut i: usize = 0;
        while i < hosts.len()
            invariant
                i <= hosts@.len(),
                allowed_hosts@.len() == i,
                forall|j: int| 0 <= j < i ==> #[trigger] allowed_hosts@[j]@ == hosts@[j]@,
            decreases hosts@.len() - i,
        {
            allowed_hosts.push(String::from_str(hosts[i]));
            i = i + 1;
        }
        AutomationPolicy { allow_gameplay_actions: true, allowed_hosts }
    }

    /// A field-by-field copy.
    pub fn duplicate(&self) -> (r: Self)
        ensures
            r.allow_gameplay_actions == self.allow_gameplay_actions,
            r.allowed_hosts@ == self.allowed_hosts@,
    {
        let mut allowed_hosts: Vec<String> = Vec::new();
        let mut i: usize = 0;
        while i < self.allowed_hosts.len()
            invariant
                i <= self.allowed_hosts@.len(),
                allowed_hosts@ == self.allowed_hosts@.subrange(0, i as int),
            decreases self.allowed_hosts@.len() - i,
        {
            allowed_hosts.push(self.allowed_hosts[i].clone());
            i = i + 1;
            assert(allowed_hosts@ =~= self.allowed_hosts@.subrange(0, i as int));
        }
        assert(allowed_hosts@ =~= self.allowed_hosts@);
        AutomationPolicy { allow_gameplay_actions: self.allow_gameplay_actions, allowed_hosts }
    }

    /// True when an allowed entry is `*` or equals `host`, comparing both
    /// trimmed and ASCII-lowercased.
    pub fn permits_host(&self, host: &str) -> (r: bool)
        ensures
            r == hosts_permit(self.allowed_hosts@, host@),
    {
        let wanted: Vec<char> = normalize_host(host);
        let mut i: usize = 0;
        while i < self.allowed_hosts.len()
            invariant
                i <= self.allowed_hosts@.len(),
                wanted@ == normalized_host(host@),
                forall|j: int|
                    0 <= j < i ==> !(normalized_host(#[trigger] self.allowed_hosts@[j]@)
                        == seq!['*'] || normalized_host(self.allowed_hosts@[j]@)
                        == normalized_host(host@)),
            decreases self.allowed_hosts@.len() - i,
        {
            let allowed: Vec<char> = normalize_host(self.allowed_hosts[i].as_str());
            let is_wildcard: bool = allowed.len() == 1 && allowed[0] == '*';
            assert(is_wildcard == (allowed@ == seq!['*'])) by {
                if allowed@.len() == 1 && allowed@[0] == '*' {
                    assert(allowed@ =~= seq!['*']);
                }
            }
            if is_wildcard || chars_equal(&allowed, &wanted) {
                assert(normalized_host(self.allowed_hosts@[i as int]@) == allowed@);
                return true;
            }
            i = i + 1;
        }
        false
    }

    /// Refuses a gameplay action unless gameplay actions are on and the host is allowed.
    pub fn require_gameplay_action(&self, host: &str, action: &'static str) -> (r: Result<(), BotError>)
        ensures
            !self.allow_gameplay_actions ==> r == Err::<(), BotError>(
                BotError::UnsafeAutomationDisabled { action },
            ),
            self.allow_gameplay_actions && !hosts_permit(self.allowed_hosts@, host@) ==> (r matches Err(
                BotError::HostNotAllowed(h),
            ) && h@ == host@),
            self.allow_gameplay_actions && hosts_permit(self.allowed_hosts@, host@) ==> r is Ok,
    {
        if !self.allow_gameplay_actions {
            return Err(BotError::UnsafeAutomationDisabled { action });
        }
        if !self.permits_host(host) {
            return Err(BotError::HostNotAllowed(String::from_str(host)));
        }
        Ok(())
    }
}

// ---------------------------------------------------------------------------
// Actions and the action queue
// ---------------------------------------------------------------------------

#[derive(Debug, Clone, PartialEq)]
pub enum BotAction {
    Chat(String),
    MoveTo(Position),
    Look(Rotation),
    Jump,
    Sneak(bool),
    Attack,
    Interact(BlockPosition),
    BreakBlock(BlockPosition),
    PlaceBlock(BlockPosition),
    UseItem,
    OpenInventory,
    ClickSlot(u32),
    Respawn,
}

/// Actions waiting to be sent, first in first out.
#[derive(Debug)]
pub struct ActionScheduler {
    pending: VecDeque<BotAction>,
}

impl Default for ActionScheduler {
    fn default() -> (r: Self)
        ensures
            r.queue().len() == 0,
    {
        ActionScheduler { pending: VecDeque::new() }
    }
}

impl ActionScheduler {
    /// The queued actions, the next one first.
    pub closed spec fn queue(&self) -> Seq<BotAction> {
        self.pending@
    }

    /// Queues `action` behind every queued one.
    pub fn schedule(&mut self, action: BotAction)
        ensures
            final(self).queue() == old(self).queue().push(action),
    {
        self.pending.push_back(action);
    }

    /// Takes the action queued first.
    pub fn pop_next(&mut self) -> (r: Option<BotAction>)
        ensures
            old(self).queue().len() == 0 ==> r is None && final(self).queue() == old(self).queue(),
            old(self).queue().len() > 0 ==> r == Some(old(self).queue()[0]) && final(self).queue()
                == old(self).queue().drop_first(),
    {
        let r = self.pending.pop_front();
        proof {
            if old(self).queue().len() > 0 {
                assert(old(self).pending@.subrange(1, old(self).pending@.len() as int)
                    =~= old(self).queue().drop_first());
            }
        }
        r
    }

    pub fn len(&self) -> (r: usize)
        ensures
            r == self.queue().len(),
    {
        self.pending.len()
    }

    pub fn is_empty(&self) -> (r: bool)
        ensures
            r == (self.queue().len() == 0),
    {
        self.pending.len() == 0
    }
}

/// The queue hands actions out in the order they were scheduled: after
/// `schedule(a)`, popping gives the old front when there was one, else `a`,
/// and leaves the rest in order with `a` at the back.
pub proof fn lemma_scheduler_fifo(queue: Seq<BotAction>, action: BotAction)
    ensures
        queue.len() == 0 ==> queue.push(action)[0] == action && queue.push(action).drop_first()
            == queue,
        queue.len() > 0 ==> queue.push(action)[0] == queue[0] && queue.push(action).drop_first()
            == queue.drop_first().push(action),
{
    assert(queue.len() == 0 ==> queue.push(action).drop_first() =~= queue);
    assert(queue.len() > 0 ==> queue.push(action).drop_first() =~= queue.drop_first().push(action));
}

// ---------------------------------------------------------------------------
// Inventory, server state, movement, keep-alive, block interaction
// ---------------------------------------------------------------------------

/// An item the bot could place: a real item with a non-zero count.
pub open spec fn is_placeable_item(item: InventoryItem) -> bool {
    item.count > 0 && item.item_id > 0
}

#[derive(Debug)]
pub struct InventoryTracker {
    items: Vec<InventoryItem>,
}

impl Default for InventoryTracker {
    fn default() -> (r: Self)
        ensures
            r.contents().len() == 0,
    {
        InventoryTracker { items: Vec::new() }
    }
}

impl InventoryTracker {
    pub closed spec fn contents(&self) -> Seq<InventoryItem> {
        self.items@
    }

    pub fn items(&self) -> (r: &[InventoryItem])
        ensures
            r@ == self.contents(),
    {
        self.items.as_slice()
    }

    pub fn replace_items(&mut self, items: Vec<InventoryItem>)
        ensures
            final(self).contents() == items@,
    {
        self.items = items;
    }

    /// The first placeable item, in inventory order.
    pub fn selected_placeable(&self) -> (r: Option<&InventoryItem>)
        ensures
            match r {
                Some(item) => exists|i: int|
                    0 <= i < self.contents().len() && *item == self.contents()[i]
                        && is_placeable_item(self.contents()[i]) && forall|j: int|
                        0 <= j < i ==> !is_placeable_item(#[trigger] self.contents()[j]),
                None => forall|j: int|
                    0 <= j < self.contents().len() ==> !is_placeable_item(
                        #[trigger] self.contents()[j],
                    ),
            },
    {
        let mut i: usize = 0;
        while i < self.items.len()
            invariant
                i <= self.items@.len(),
                forall|j: int| 0 <= j < i ==> !is_placeable_item(#[trigger] self.items@[j]),
            decreases self.items@.len() - i,
        {
            let item: &InventoryItem = &self.items[i];
            if item.count > 0 && item.item_id > 0 {
                assert(*item == self.contents()[i as int]);
                return Some(item);
            }
            i = i + 1;
        }
        None
    }
}

/// What the server last told the bot about itself.
#[derive(Debug)]
pub struct ServerStateTracker {
    position: Option<Position>,
    rotation: Option<Rotation>,
    dead: bool,
    scoreboard: Vec<String>,
    actionbar: Option<String>,
    title: Option<String>,
}

impl Default for ServerStateTracker {
    fn default() -> (r: Self)
        ensures
            r.spec_position() is None,
            r.spec_rotation() is None,
            !r.spec_dead(),
            r.spec_scoreboard().len() == 0,
            r.spec_actionbar() is None,
            r.spec_title() is None,
    {
        ServerStateTracker {
            position: None,
            rotation: None,
            dead: false,
            scoreboard: Vec::new(),
            actionbar: None,
            title: None,
        }
    }
}

impl ServerStateTracker {
    pub closed spec fn spec_position(&self) -> Option<Position> {
        self.position
    }

    pub closed spec fn spec_rotation(&self) -> Option<Rotation> {
        self.rotation
    }

    pub closed spec fn spec_dead(&self) -> bool {
        self.dead
    }

    pub closed spec fn spec_scoreboard(&self) -> Seq<String> {
        self.scoreboard@
    }

    pub closed spec fn spec_actionbar(&self) -> Option<String> {
        self.actionbar
    }

    pub closed spec fn spec_title(&self) -> Option<String> {
        self.title
    }

    pub fn position(&self) -> (r: Option<Position>)
        ensures
            r == self.spec_position(),
    {
        self.position
    }

    pub fn rotation(&self) -> (r: Option<Rotation>)
        ensures
            r == self.spec_rotation(),
    {
        self.rotation
    }

    pub fn is_dead(&self) -> (r: bool)
        ensures
            r == self.spec_dead(),
    {
        self.dead
    }

    pub fn scoreboard(&self) -> (r: &[String])
        ensures
            r@ == self.spec_scoreboard(),
    {
        self.scoreboard.as_slice()
    }

    pub fn actionbar(&self) -> (r: Option<&str>)
        ensures
            match self.spec_actionbar() {
                Some(s) => r matches Some(t) && t@ == s@,
                None => r is None,
            },
    {
        match &self.actionbar {
            Some(s) => Some(s.as_str()),
            None => None,
        }
    }

    pub fn title(&self) -> (r: Option<&str>)
        ensures
            match self.spec_title() {
                Some(s) => r matches Some(t) && t@ == s@,
                None => r is None,
            },
    {
        match &self.title {
            Some(s) => Some(s.as_str()),
            None => None,
        }
    }

    pub(crate) fn set_position(&mut self, position: Position)
        ensures
            final(self).spec_position() == Some(position),
            final(self).spec_rotation() == old(self).spec_rotation(),
            final(self).spec_dead() == old(self).spec_dead(),
    {
        self.position = Some(position);
    }

    pub(crate) fn set_rotation(&mut self, rotation: Rotation)
        ensures
            final(self).spec_rotation() == Some(rotation),
            final(self).spec_position() == old(self).spec_position(),
            final(self).spec_dead() == old(self).spec_dead(),
    {
        self.rotation = Some(rotation);
    }
}

/// Where the bot was last told to go and look.
#[derive(Debug)]
pub struct MovementController {
    target: Option<Position>,
    rotation: Option<Rotation>,
    sneaking: bool,
}

impl Default for MovementController {
    fn default() -> (r: Self)
        ensures
            r.spec_target() is None,
            r.spec_rotation() is None,
            !r.spec_sneaking(),
    {
        MovementController { target: None, rotation: None, sneaking: false }
    }
}

impl MovementController {
    pub closed spec fn spec_target(&self) -> Option<Position> {
        self.target
    }

    pub closed spec fn spec_rotation(&self) -> Option<Rotation> {
        self.rotation
    }

    pub closed spec fn spec_sneaking(&self) -> bool {
        self.sneaking
    }

    pub fn target(&self) -> (r: Option<Position>)
        ensures
            r == self.spec_target(),
    {
        self.target
    }

    pub fn rotation(&self) -> (r: Option<Rotation>)
        ensures
            r == self.spec_rotation(),
    {
        self.rotation
    }

    pub fn sneaking(&self) -> (r: bool)
        ensures
            r == self.spec_sneaking(),
    {
        self.sneaking
    }

    pub(crate) fn move_to(&mut self, position: Position)
        ensures
            final(self).spec_target() == Some(position),
            final(self).spec_rotation() == old(self).spec_rotation(),
            final(self).spec_sneaking() == old(self).spec_sneaking(),
    {
        self.target = Some(position);
    }

    pub(crate) fn look(&mut self, rotation: Rotation)
        ensures
            final(self).spec_rotation() == Some(rotation),
            final(self).spec_target() == old(self).spec_target(),
            final(self).spec_sneaking() == old(self).spec_sneaking(),
    {
        self.rotation = Some(rotation);
    }

    pub(crate) fn sneak(&mut self, enabled: bool)
        ensures
            final(self).spec_sneaking() == enabled,
            final(self).spec_target() == old(self).spec_target(),
            final(self).spec_rotation() == old(self).spec_rotation(),
    {
        self.sneaking = enabled;
    }
}

#[derive(Debug)]
pub struct KeepAliveController {
    interval: Duration,
}

impl KeepAliveController {
    pub closed spec fn spec_interval(&self) -> Duration {
        self.interval
    }

    pub fn with_interval(interval: Duration) -> (r: Self)
        ensures
            r.spec_interval() == interval,
    {
        KeepAliveController { interval }
    }

    pub fn interval(&self) -> (r: Duration)
        ensures
            r == self.spec_interval(),
    {
        self.interval
    }
}

/// Whether the bot may break and place blocks on the session's server.
#[derive(Debug)]
pub struct BlockInteractionController {
    policy: AutomationPolicy,
    server: ServerAddress,
}

impl BlockInteractionController {
    pub closed spec fn spec_policy(&self) -> AutomationPolicy {
        self.policy
    }

    pub closed spec fn spec_server(&self) -> ServerAddress {
        self.server
    }

    pub(crate) fn new(policy: AutomationPolicy, server: ServerAddress) -> (r: Self)
        ensures
            r.spec_policy() == policy,
            r.spec_server() == server,
    {
        BlockInteractionController { policy, server }
    }

    pub fn can_modify_blocks(&self) -> (r: bool)
        ensures
            r == (self.spec_policy().allow_gameplay_actions && hosts_permit(
                self.spec_policy().allowed_hosts@,
                self.spec_server().host@,
            )),
    {
        self.policy.allow_gameplay_actions && self.policy.permits_host(self.server.host.as_str())
    }
}

// ---------------------------------------------------------------------------
// The session and its builder
// ---------------------------------------------------------------------------

/// `Duration::from_secs` of std, given no contract: nothing is claimed of
/// the `Duration` it builds beyond its type.
pub assume_specification[ core::time::Duration::from_secs ](secs: u64) -> Duration;

/// A bot session: the account and server it plays on, its policy, whether it
/// is connected, and the trackers and queue that its requests feed.
#[derive(Debug)]
pub struct BotSession<C, D> {
    config: C,
    db: D,
    account_id: String,
    server: ServerAddress,
    policy: AutomationPolicy,
    connected: bool,
    last_status: Option<CapabilityStatus>,
    state: ServerStateTracker,
    inventory: InventoryTracker,
    movement: MovementController,
    scheduler: ActionScheduler,
    keepalive: KeepAliveController,
    blocks: BlockInteractionController,
}

/// The outcome a gameplay request owes: refused when not connected, then when
/// gameplay actions are off, then when the host is not allowed; else accepted.
pub open spec fn gameplay_outcome<C, D>(s: BotSession<C, D>, action: &'static str, r: Result<(), BotError>) -> bool {
    if !s.is_connected() {
        r == Err::<(), BotError>(BotError::NotConnected)
    } else if !s.policy_allows_gameplay() {
        r == Err::<(), BotError>(BotError::UnsafeAutomationDisabled { action })
    } else if !s.host_permitted() {
        r matches Err(BotError::HostNotAllowed(h)) && h@ == s.host()
    } else {
        r is Ok
    }
}

/// What a request that queues `queued` does: on success the action joins the
/// back of the queue, on refusal nothing changes; connection, policy and
/// server stay as they were.
pub open spec fn request_step<C, D>(old: BotSession<C, D>, new: BotSession<C, D>, queued: BotAction, r: Result<(), BotError>) -> bool {
    &&& r is Ok ==> new.actions() == old.actions().push(queued)
    &&& r is Err ==> new.actions() == old.actions()
    &&& new.is_connected() == old.is_connected()
    &&& new.policy_allows_gameplay() == old.policy_allows_gameplay()
    &&& new.host_permitted() == old.host_permitted()
    &&& new.host() == old.host()
}

/// The outcome a request that needs only a connection owes.
pub open spec fn connected_outcome<C, D>(s: BotSession<C, D>, r: Result<(), BotError>) -> bool {
    if s.is_connected() {
        r is Ok
    } else {
        r == Err::<(), BotError>(BotError::NotConnected)
    }
}

impl<C, D> BotSession<C, D> {
    pub closed spec fn is_connected(&self) -> bool {
        self.connected
    }

    pub closed spec fn spec_last_status(&self) -> Option<CapabilityStatus> {
        self.last_status
    }

    pub closed spec fn spec_config(&self) -> C {
        self.config
    }

    pub closed spec fn spec_database(&self) -> D {
        self.db
    }

    pub closed spec fn actions(&self) -> Seq<BotAction> {
        self.scheduler.queue()
    }

    pub closed spec fn policy_allows_gameplay(&self) -> bool {
        self.policy.allow_gameplay_actions
    }

    pub closed spec fn host_permitted(&self) -> bool {
        hosts_permit(self.policy.allowed_hosts@, self.server.host@)
    }

    pub closed spec fn host(&self) -> Seq<char> {
        self.server.host@
    }

    pub closed spec fn account(&self) -> Seq<char> {
        self.account_id@
    }

    pub closed spec fn movement_target(&self) -> Option<Position> {
        self.movement.spec_target()
    }

    pub closed spec fn movement_rotation(&self) -> Option<Rotation> {
        self.movement.spec_rotation()
    }

    pub closed spec fn movement_sneaking(&self) -> bool {
        self.movement.spec_sneaking()
    }

    pub closed spec fn state_position(&self) -> Option<Position> {
        self.state.spec_position()
    }

    pub closed spec fn state_rotation(&self) -> Option<Rotation> {
        self.state.spec_rotation()
    }

    pub closed spec fn state_dead(&self) -> bool {
        self.state.spec_dead()
    }

    pub closed spec fn inventory_contents(&self) -> Seq<InventoryItem> {
        self.inventory.contents()
    }

    pub closed spec fn keepalive_interval(&self) -> Duration {
        self.keepalive.spec_interval()
    }

    pub closed spec fn blocks_policy_and_server(&self) -> (AutomationPolicy, ServerAddress) {
        (self.blocks.spec_policy(), self.blocks.spec_server())
    }

    pub fn builder() -> (r: BotSessionBuilder<C, D>)
        ensures
            r.spec_config() is None,
            r.spec_database() is None,
            r.spec_account() is None,
            r.spec_server() is None,
            !r.spec_policy().allow_gameplay_actions,
            r.spec_policy().allowed_hosts@.len() == 0,
    {
        BotSessionBuilder::new()
    }

    /// A disconnected session with empty trackers, an empty queue and a
    /// thirty-second keep-alive.
    pub fn new(config: C, db: D, account_id: String, server: ServerAddress, policy: AutomationPolicy) -> (r: Self)
        ensures
            !r.is_connected(),
            r.spec_last_status() is None,
            r.spec_config() == config,
            r.spec_database() == db,
            r.actions().len() == 0,
            r.account() == account_id@,
            r.host() == server.host@,
            r.policy_allows_gameplay() == policy.allow_gameplay_actions,
            r.host_permitted() == hosts_permit(policy.allowed_hosts@, server.host@),
            r.movement_target() is None,
            r.state_position() is None,
            r.blocks_policy_and_server().0.allow_gameplay_actions == policy.allow_gameplay_actions,
            r.blocks_policy_and_server().0.allowed_hosts@ == policy.allowed_hosts@,
            r.blocks_policy_and_server().1 == server,
    {
        let blocks = BlockInteractionController::new(policy.duplicate(), server.duplicate());
        BotSession {
            config,
            db,
            account_id,
            server,
            policy,
            connected: false,
            last_status: None,
            state: ServerStateTracker::default(),
            inventory: InventoryTracker::default(),
            movement: MovementController::default(),
            scheduler: ActionScheduler::default(),
            keepalive: KeepAliveController::with_interval(Duration::from_secs(30)),
            blocks,
        }
    }

    /// Records the status that connecting's reachability check returned:
    /// the session counts as connected exactly when the check succeeded, the
    /// status becomes the last status, and a copy of it is handed back.
    pub fn finish_connect(&mut self, status: CapabilityStatus) -> (r: CapabilityStatus)
        ensures
            final(self).is_connected() == status.success,
            final(self).spec_last_status() == Some(status),
            r.same_flags(status),
            r.success == status.success,
            r.gameplay_actions == status.gameplay_actions,
            r.requested_duration_seconds == status.requested_duration_seconds,
            r.connected_duration_seconds == status.connected_duration_seconds,
            texts(r.missing_capabilities@) == texts(status.missing_capabilities@),
            texts(r.optional_capabilities_missing@) == texts(status.optional_capabilities_missing@),
            final(self).actions() == old(self).actions(),
            final(self).host() == old(self).host(),
            final(self).host_permitted() == old(self).host_permitted(),
            final(self).policy_allows_gameplay() == old(self).policy_allows_gameplay(),
    {
        let copy = status.duplicate();
        self.connected = status.success;
        self.last_status = Some(status);
        copy
    }

    /// The status of the last connect, if any.
    pub fn last_status(&self) -> (r: Option<&CapabilityStatus>)
        ensures
            match r {
                Some(s) => self.spec_last_status() == Some(*s),
                None => self.spec_last_status() is None,
            },
    {
        match &self.last_status {
            Some(s) => Some(s),
            None => None,
        }
    }

    pub fn config(&self) -> (r: &C)
        ensures
            *r == self.spec_config(),
    {
        &self.config
    }

    pub fn database(&self) -> (r: &D)
        ensures
            *r == self.spec_database(),
    {
        &self.db
    }

    pub fn disconnect(&mut self) -> (r: Result<(), BotError>)
        ensures
            r is Ok,
            !final(self).is_connected(),
            final(self).actions() == old(self).actions(),
    {
        self.connected = false;
        Ok(())
    }

    pub fn require_connected(&self) -> (r: Result<(), BotError>)
        ensures
            connected_outcome(*self, r),
    {
        if self.connected {
            Ok(())
        } else {
            Err(BotError::NotConnected)
        }
    }

    pub fn require_gameplay_allowed(&self, action: &'static str) -> (r: Result<(), BotError>)
        ensures
            gameplay_outcome(*self, action, r),
    {
        if !self.connected {
            return Err(BotError::NotConnected);
        }
        self.policy.require_gameplay_action(self.server.host.as_str(), action)
    }

    fn queue_when_connected(&mut self, action: BotAction) -> (r: Result<(), BotError>)
        ensures
            connected_outcome(*old(self), r),
            request_step(*old(self), *final(self), action, r),
            final(self).movement_target() == old(self).movement_target(),
            final(self).movement_rotation() == old(self).movement_rotation(),
            final(self).movement_sneaking() == old(self).movement_sneaking(),
            final(self).state_position() == old(self).state_position(),
            final(self).state_rotation() == old(self).state_rotation(),
    {
        if !self.connected {
            return Err(BotError::NotConnected);
        }
        self.scheduler.schedule(action);
        Ok(())
    }

    fn queue_gameplay(&mut self, name: &'static str, action: BotAction) -> (r: Result<(), BotError>)
        ensures
            gameplay_outcome(*old(self), name, r),
            request_step(*old(self), *final(self), action, r),
    {
        match self.require_gameplay_allowed(name) {
            Ok(()) => {},
            Err(e) => return Err(e),
        }
        self.scheduler.schedule(action);
        Ok(())
    }

    /// Queues a chat message.
    pub fn chat(&mut self, message: String) -> (r: Result<(), BotError>)
        ensures
            connected_outcome(*old(self), r),
            request_step(*old(self), *final(self), BotAction::Chat(message), r),
    {
        self.queue_when_connected(BotAction::Chat(message))
    }

    /// Sets the movement target and the known position, and queues the move.
    pub fn move_to(&mut self, position: Position) -> (r: Result<(), BotError>)
        ensures
            connected_outcome(*old(self), r),
            request_step(*old(self), *final(self), BotAction::MoveTo(position), r),
            r is Ok ==> final(self).movement_target() == Some(position) && final(self).state_position()
                == Some(position),
            r is Err ==> final(self).movement_target() == old(self).movement_target()
                && final(self).state_position() == old(self).state_position(),
    {
        if !self.connected {
            return Err(BotError::NotConnected);
        }
        self.movement.move_to(position);
        self.state.set_position(position);
        self.scheduler.schedule(BotAction::MoveTo(position));
        Ok(())
    }

    /// Sets the movement rotation and the known rotation, and queues the look.
    pub fn look(&mut self, rotation: Rotation) -> (r: Result<(), BotError>)
        ensures
            connected_outcome(*old(self), r),
            request_step(*old(self), *final(self), BotAction::Look(rotation), r),
            r is Ok ==> final(self).movement_rotation() == Some(rotation)
                && final(self).state_rotation() == Some(rotation),
            r is Err ==> final(self).movement_rotation() == old(self).movement_rotation()
                && final(self).state_rotation() == old(self).state_rotation(),
    {
        if !self.connected {
            return Err(BotError::NotConnected);
        }
        self.movement.look(rotation);
        self.state.set_rotation(rotation);
        self.scheduler.schedule(BotAction::Look(rotation));
        Ok(())
    }

    pub fn jump(&mut self) -> (r: Result<(), BotError>)
        ensures
            connected_outcome(*old(self), r),
            request_step(*old(self), *final(self), BotAction::Jump, r),
    {
        self.queue_when_connected(BotAction::Jump)
    }

    /// Sets sneaking and queues the toggle.
    pub fn sneak(&mut self, enabled: bool) -> (r: Result<(), BotError>)
        ensures
            connected_outcome(*old(self), r),
            request_step(*old(self), *final(self), BotAction::Sneak(enabled), r),
            r is Ok ==> final(self).movement_sneaking() == enabled,
            r is Err ==> final(self).movement_sneaking() == old(self).movement_sneaking(),
    {
        if !self.connected {
            return Err(BotError::NotConnected);
        }
        self.movement.sneak(enabled);
        self.scheduler.schedule(BotAction::Sneak(enabled));
        Ok(())
    }

    pub fn attack(&mut self) -> (r: Result<(), BotError>)
        ensures
            gameplay_outcome(*old(self), "attack", r),
            request_step(*old(self), *final(self), BotAction::Attack, r),
    {
        self.queue_gameplay("attack", BotAction::Attack)
    }

    pub fn interact(&mut self, position: BlockPosition) -> (r: Result<(), BotError>)
        ensures
            gameplay_outcome(*old(self), "interact", r),
            request_step(*old(self), *final(self), BotAction::Interact(position), r),
    {
        self.queue_gameplay("interact", BotAction::Interact(position))
    }

    pub fn break_block(&mut self, position: BlockPosition) -> (r: Result<(), BotError>)
        ensures
            gameplay_outcome(*old(self), "break_block", r),
            request_step(*old(self), *final(self), BotAction::BreakBlock(position), r),
    {
        self.queue_gameplay("break_block", BotAction::BreakBlock(position))
    }

    pub fn place_block(&mut self, position: BlockPosition) -> (r: Result<(), BotError>)
        ensures
            gameplay_outcome(*old(self), "place_block", r),
            request_step(*old(self), *final(self), BotAction::PlaceBlock(position), r),
    {
        self.queue_gameplay("place_block", BotAction::PlaceBlock(position))
    }

    pub fn use_item(&mut self) -> (r: Result<(), BotError>)
        ensures
            gameplay_outcome(*old(self), "use_item", r),
            request_step(*old(self), *final(self), BotAction::UseItem, r),
    {
        self.queue_gameplay("use_item", BotAction::UseItem)
    }

    pub fn open_inventory(&mut self) -> (r: Result<(), BotError>)
        ensures
            gameplay_outcome(*old(self), "open_inventory", r),
            request_step(*old(self), *final(self), BotAction::OpenInventory, r),
    {
        self.queue_gameplay("open_inventory", BotAction::OpenInventory)
    }

    pub fn click_slot(&mut self, slot: u32) -> (r: Result<(), BotError>)
        ensures
            gameplay_outcome(*old(self), "click_slot", r),
            request_step(*old(self), *final(self), BotAction::ClickSlot(slot), r),
    {
        self.queue_gameplay("click_slot", BotAction::ClickSlot(slot))
    }

    pub fn respawn(&mut self) -> (r: Result<(), BotError>)
        ensures
            connected_outcome(*old(self), r),
            request_step(*old(self), *final(self), BotAction::Respawn, r),
    {
        self.queue_when_connected(BotAction::Respawn)
    }

    pub fn is_dead(&self) -> (r: bool)
        ensures
            r == self.state_dead(),
    {
        self.state.is_dead()
    }

    pub fn movement_controller(&self) -> (r: &MovementController)
        ensures
            r.spec_target() == self.movement_target(),
            r.spec_rotation() == self.movement_rotation(),
            r.spec_sneaking() == self.movement_sneaking(),
    {
        &self.movement
    }

    pub fn inventory_tracker(&self) -> (r: &InventoryTracker)
        ensures
            r.contents() == self.inventory_contents(),
    {
        &self.inventory
    }

    pub fn server_state_tracker(&self) -> (r: &ServerStateTracker)
        ensures
            r.spec_position() == self.state_position(),
            r.spec_rotation() == self.state_rotation(),
    {
        &self.state
    }

    pub fn action_scheduler(&self) -> (r: &ActionScheduler)
        ensures
            r.queue() == self.actions(),
    {
        &self.scheduler
    }

    /// Takes the next queued action.
    pub fn pop_next_action(&mut self) -> (r: Option<BotAction>)
        ensures
            old(self).actions().len() == 0 ==> r is None && final(self).actions() == old(self).actions(),
            old(self).actions().len() > 0 ==> r == Some(old(self).actions()[0])
                && final(self).actions() == old(self).actions().drop_first(),
            final(self).is_connected() == old(self).is_connected(),
    {
        self.scheduler.pop_next()
    }

    pub fn keepalive_controller(&self) -> (r: &KeepAliveController)
        ensures
            r.spec_interval() == self.keepalive_interval(),
    {
        &self.keepalive
    }

    pub fn block_interaction_controller(&self) -> (r: &BlockInteractionController)
        ensures
            r.spec_policy() == self.blocks_policy_and_server().0,
            r.spec_server() == self.blocks_policy_and_server().1,
    {
        &self.blocks
    }
}

/// Collects what a session needs before it can be built.
#[derive(Debug)]
pub struct BotSessionBuilder<C, D> {
    config: Option<C>,
    db: Option<D>,
    account_id: Option<String>,
    server: Option<ServerAddress>,
    automation_policy: AutomationPolicy,
}

impl<C, D> BotSessionBuilder<C, D> {
    pub closed spec fn spec_config(&self) -> Option<C> {
        self.config
    }

    pub closed spec fn spec_database(&self) -> Option<D> {
        self.db
    }

    pub closed spec fn spec_account(&self) -> Option<Seq<char>> {
        match self.account_id {
            Some(a) => Some(a@),
            None => None,
        }
    }

    pub closed spec fn spec_server(&self) -> Option<ServerAddress> {
        self.server
    }

    pub closed spec fn spec_policy(&self) -> AutomationPolicy {
        self.automation_policy
    }

    pub fn new() -> (r: Self)
        ensures
            r.spec_config() is None,
            r.spec_database() is None,
            r.spec_account() is None,
            r.spec_server() is None,
            !r.spec_policy().allow_gameplay_actions,
            r.spec_policy().allowed_hosts@.len() == 0,
    {
        BotSessionBuilder {
            config: None,
            db: None,
            account_id: None,
            server: None,
            automation_policy: AutomationPolicy::default(),
        }
    }

    pub fn config(self, config: C) -> (r: Self)
        ensures
            r.spec_config() == Some(config),
            r.spec_database() == self.spec_database(),
            r.spec_account() == self.spec_account(),
            r.spec_server() == self.spec_server(),
            r.spec_policy() == self.spec_policy(),
    {
        BotSessionBuilder {
            config: Some(config),
            db: self.db,
            account_id: self.account_id,
            server: self.server,
            automation_policy: self.automation_policy,
        }
    }

    pub fn database(self, db: D) -> (r: Self)
        ensures
            r.spec_config() == self.spec_config(),
            r.spec_database() == Some(db),
            r.spec_account() == self.spec_account(),
            r.spec_server() == self.spec_server(),
            r.spec_policy() == self.spec_policy(),
    {
        BotSessionBuilder {
            config: self.config,
            db: Some(db),
            account_id: self.account_id,
            server: self.server,
            automation_policy: self.automation_policy,
        }
    }

    pub fn account(self, account_id: &str) -> (r: Self)
        ensures
            r.spec_config() == self.spec_config(),
            r.spec_database() == self.spec_database(),
            r.spec_account() == Some(account_id@),
            r.spec_server() == self.spec_server(),
            r.spec_policy() == self.spec_policy(),
    {
        BotSessionBuilder {
            config: self.config,
            db: self.db,
            account_id: Some(String::from_str(account_id)),
            server: self.server,
            automation_policy: self.automation_policy,
        }
    }

    pub fn account_id(self, account_id: &str) -> (r: Self)
        ensures
            r.spec_config() == self.spec_config(),
            r.spec_database() == self.spec_database(),
            r.spec_account() == Some(account_id@),
            r.spec_server() == self.spec_server(),
            r.spec_policy() == self.spec_policy(),
    {
        self.account(account_id)
    }

    pub fn server(self, server: ServerAddress) -> (r: Self)
        ensures
            r.spec_config() == self.spec_config(),
            r.spec_database() == self.spec_database(),
            r.spec_account() == self.spec_account(),
            r.spec_server() == Some(server),
            r.spec_policy() == self.spec_policy(),
    {
        BotSessionBuilder {
            config: self.config,
            db: self.db,
            account_id: self.account_id,
            server: Some(server),
            automation_policy: self.automation_policy,
        }
    }

    pub fn automation_policy(self, policy: AutomationPolicy) -> (r: Self)
        ensures
            r.spec_config() == self.spec_config(),
            r.spec_database() == self.spec_database(),
            r.spec_account() == self.spec_account(),
            r.spec_server() == self.spec_server(),
            r.spec_policy() == policy,
    {
        BotSessionBuilder {
            config: self.config,
            db: self.db,
            account_id: self.account_id,
            server: self.server,
            automation_policy: policy,
        }
    }

    /// The session, or the first missing field: the config, then the
    /// database, then the account, then the server.
    pub fn build(self) -> (r: Result<BotSession<C, D>, BotError>)
        ensures
            self.spec_config() is None ==> r == Err::<BotSession<C, D>, BotError>(
                BotError::MissingBuilderField("config"),
            ),
            self.spec_config() is Some && self.spec_database() is None ==> r == Err::<
                BotSession<C, D>,
                BotError,
            >(BotError::MissingBuilderField("database")),
            self.spec_config() is Some && self.spec_database() is Some && self.spec_account() is None
                ==> r == Err::<BotSession<C, D>, BotError>(BotError::MissingBuilderField("account")),
            self.spec_config() is Some && self.spec_database() is Some && self.spec_account() is Some
                && self.spec_server() is None ==> r == Err::<BotSession<C, D>, BotError>(
                BotError::MissingBuilderField("server"),
            ),
            (self.spec_config() is Some && self.spec_database() is Some && self.spec_account() is Some
                && self.spec_server() is Some) ==> (r matches Ok(s) && {
                &&& !s.is_connected()
                &&& s.spec_last_status() is None
                &&& s.spec_config() == self.spec_config()->0
                &&& s.spec_database() == self.spec_database()->0
                &&& s.actions().len() == 0
                &&& s.account() == self.spec_account()->0
                &&& s.host() == (self.spec_server()->0).host@
                &&& s.policy_allows_gameplay() == self.spec_policy().allow_gameplay_actions
                &&& s.host_permitted() == hosts_permit(
                    self.spec_policy().allowed_hosts@,
                    (self.spec_server()->0).host@,
                )
                &&& s.blocks_policy_and_server().0.allow_gameplay_actions
                    == self.spec_policy().allow_gameplay_actions
                &&& s.blocks_policy_and_server().0.allowed_hosts@ == self.spec_policy().allowed_hosts@
                &&& s.blocks_policy_and_server().1 == self.spec_server()->0
            }),
    {
        let config: C = match self.config {
            Some(c) => c,
            None => return Err(BotError::MissingBuilderField("config")),
        };
        let db: D = match self.db {
            Some(d) => d,
            None => return Err(BotError::MissingBuilderField("database")),
        };
        let account_id: String = match self.account_id {
            Some(a) => a,
            None => return Err(BotError::MissingBuilderField("account")),
        };
        let server: ServerAddress = match self.server {
            Some(s) => s,
            None => return Err(BotError::MissingBuilderField("server")),
        };
        Ok(BotSession::new(config, db, account_id, server, self.automation_policy))
    }
}

/// What a chest-room bot run did: whether it completed every task, the
/// chests and the axe it found, and the tasks, actions and errors it logged.
#[derive(Debug, Clone, PartialEq, Eq)]
pub struct ChestRoomBotReport {
    pub success: bool,
    pub chest_positions: Vec<String>,
    pub diamond_axe_chest: String,
    pub axe_enchantments: Vec<String>,
    pub completed_tasks: Vec<String>,
    pub actions: Vec<String>,
    pub errors: Vec<String>,
}

} // verus!

