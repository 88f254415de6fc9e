//! What a validation run found the bot able to do, and how the run's flags
//! become the outcome: which capabilities are missing and whether it passed.

use vstd::prelude::*;

verus! {

/// The capabilities a validation run checked, what is still missing, and
/// how long it ran.
#[derive(Debug)]
pub struct CapabilityStatus {
    pub success: bool,
    pub login: bool,
    pub spawn: bool,
    pub player_spawn: bool,
    pub remained_connected: bool,
    pub keepalive: bool,
    pub chat: bool,
    pub inventory_transactions: bool,
    pub movement: bool,
    pub block_breaking: bool,
    pub block_placing: bool,
    pub gameplay_actions: bool,
    pub forms: bool,
    pub disconnect_handling: bool,
    pub requested_duration_seconds: u64,
    pub connected_duration_seconds: u64,
    pub disconnect_reason: Option<String>,
    pub missing_capabilities: Vec<String>,
    pub optional_capabilities_missing: Vec<String>,
}

/// `after` is `before` finalized, as `CapabilityStatus::finalize` leaves it.
pub open spec fn finalized(before: CapabilityStatus, after: CapabilityStatus) -> bool {
    &&& after.same_flags(before)
    &&& after.gameplay_actions == gameplay_complete(before)
    &&& texts(after.missing_capabilities@) == missing_names(critical_flags(before, gameplay_complete(before)))
    &&& texts(after.optional_capabilities_missing@) == missing_names(optional_flags(before))
    &&& after.success == (after.missing_capabilities@.len() == 0)
    &&& after.requested_duration_seconds == before.requested_duration_seconds
    &&& after.connected_duration_seconds == before.connected_duration_seconds
    &&& after.disconnect_reason == before.disconnect_reason
}

/// The text of each string in `v`.
pub open spec fn texts(v: Seq<String>) -> Seq<Seq<char>> {
    v.map_values(|s: String| s@)
}

/// The names whose flag is off, in order.
pub open spec fn missing_names(flags: Seq<(&'static str, bool)>) -> Seq<Seq<char>>
    decreases flags.len(),
{
    if flags.len() == 0 {
        Seq::empty()
    } else {
        let rest = missing_names(flags.drop_last());
        if flags.last().1 {
            rest
        } else {
            rest.push(flags.last().0@)
        }
    }
}

/// Whether every gameplay capability was seen.
pub open spec fn gameplay_complete(s: CapabilityStatus) -> bool {
    s.chat && s.inventory_transactions && s.movement && s.block_breaking && s.block_placing
}

/// The capabilities a run needs, in the order they are reported, with
/// `gameplay` standing for the gameplay-actions flag.
pub open spec fn critical_flags(s: CapabilityStatus, gameplay: bool) -> Seq<(&'static str, bool)> {
    seq![
        ("login", s.login),
        ("spawn", s.spawn),
        ("player_spawn", s.player_spawn),
        ("remained_connected", s.remained_connected),
        ("keepalive", s.keepalive),
        ("chat", s.chat),
        ("inventory_transactions", s.inventory_transactions),
        ("movement", s.movement),
        ("block_breaking", s.block_breaking),
        ("block_placing", s.block_placing),
        ("gameplay_actions", gameplay),
    ]
}

/// The capabilities a run may lack and still pass.
pub open spec fn optional_flags(s: CapabilityStatus) -> Seq<(&'static str, bool)> {
    seq![("forms", s.forms), ("disconnect_handling", s.disconnect_handling)]
}

/// The names of the flags that are off, as strings.
fn missing_of(flags: &Vec<(&'static str, bool)>) -> (r: Vec<String>)
    ensures
        texts(r@) == missing_names(flags@),
{
    let mut out: Vec<String> = Vec::new();
    let mut i: usize = 0;
    while i < flags.len()
        invariant
            i <= flags@.len(),
            texts(out@) == missing_names(flags@.take(i as int)),
        decreases flags@.len() - i,
    {
        let (name, ok) = flags[i];
        assert(flags@.take(i as int + 1).drop_last() =~= flags@.take(i as int));
        if !ok {
            let s = String::from_str(name);
            assert(texts(out@.push(s)) =~= texts(out@).push(s@));
            out.push(s);
        }
        i = i + 1;
    }
    assert(flags@.take(i as int) =~= flags@);
    out
}

impl CapabilityStatus {
    /// A status where nothing was seen and nothing is listed missing.
    pub fn new() -> (r: Self)
        ensures
            !r.success && !r.login && !r.spawn && !r.player_spawn && !r.remained_connected,
            !r.keepalive && !r.chat && !r.inventory_transactions && !r.movement,
            !r.block_breaking && !r.block_placing && !r.gameplay_actions && !r.forms,
            !r.disconnect_handling,
            r.requested_duration_seconds == 0,
            r.connected_duration_seconds == 0,
            r.disconnect_reason is None,
            r.missing_capabilities@.len() == 0,
            r.optional_capabilities_missing@.len() == 0,
    {
        CapabilityStatus {
            success: false,
            login: false,
            spawn: false,
            player_spawn: false,
            remained_connected: false,
            keepalive: false,
            chat: false,
            inventory_transactions: false,
            movement: false,
            block_breaking: false,
            block_placing: false,
            gameplay_actions: false,
            forms: false,
            disconnect_handling: false,
            requested_duration_seconds: 0,
            connected_duration_seconds: 0,
            disconnect_reason: None,
            missing_capabilities: Vec::new(),
            optional_capabilities_missing: Vec::new(),
        }
    }

    /// A copy, field by field.
    pub fn duplicate(&self) -> (r: Self)
        ensures
            r.same_flags(*self),
            r.requested_duration_seconds == self.requested_duration_seconds,
            r.connected_duration_seconds == self.connected_duration_seconds,
            r.success == self.success,
            r.gameplay_actions == self.gameplay_actions,
            texts(r.missing_capabilities@) == texts(self.missing_capabilities@),
            texts(r.optional_capabilities_missing@) == texts(self.optional_capabilities_missing@),
            r.disconnect_reason is Some <==> self.disconnect_reason is Some,
            r.disconnect_reason is Some ==> (r.disconnect_reason->0)@ == (self.disconnect_reason->0)@,
    {
        CapabilityStatus {
            success: self.success,
            login: self.login,
            spawn: self.spawn,
            player_spawn: self.player_spawn,
            remained_connected: self.remained_connected,
            keepalive: self.keepalive,
            chat: self.chat,
            inventory_transactions: self.inventory_transactions,
            movement: self.movement,
            block_breaking: self.block_breaking,
            block_placing: self.block_placing,
            gameplay_actions: self.gameplay_actions,
            forms: self.forms,
            disconnect_handling: self.disconnect_handling,
            requested_duration_seconds: self.requested_duration_seconds,
            connected_duration_seconds: self.connected_duration_seconds,
            disconnect_reason: match &self.disconnect_reason {
                Some(s) => Some(s.clone()),
                None => None,
            },
            missing_capabilities: copy_strings(&self.missing_capabilities),
            optional_capabilities_missing: copy_strings(&self.optional_capabilities_missing),
        }
    }

    /// The capability flags of `self` and `other` agree (the outcome fields
    /// and the lists aside).
    pub open spec fn same_flags(self, other: CapabilityStatus) -> bool {
        &&& self.login == other.login
        &&& self.spawn == other.spawn
        &&& self.player_spawn == other.player_spawn
        &&& self.remained_connected == other.remained_connected
        &&& self.keepalive == other.keepalive
        &&& self.chat == other.chat
        &&& self.inventory_transactions == other.inventory_transactions
        &&& self.movement == other.movement
        &&& self.block_breaking == other.block_breaking
        &&& self.block_placing == other.block_placing
        &&& self.forms == other.forms
        &&& self.disconnect_handling == other.disconnect_handling
    }

    /// Records how long the session stayed connected since spawning; it
    /// remained connected when that reaches the requested duration.
    pub fn record_connected_for(&mut self, connected_seconds: u64)
        ensures
            *final(self) == (CapabilityStatus {
                connected_duration_seconds: connected_seconds,
                remained_connected: connected_seconds >= old(self).requested_duration_seconds,
                ..*old(self)
            }),
    {
        self.connected_duration_seconds = connected_seconds;
        self.remained_connected = connected_seconds >= self.requested_duration_seconds;
    }

    /// Records that the server ended the session, and why: the disconnect
    /// was handled.
    pub fn record_disconnect(&mut self, reason: String)
        ensures
            *final(self) == (CapabilityStatus {
                disconnect_handling: true,
                disconnect_reason: Some(reason),
                ..*old(self)
            }),
    {
        self.disconnect_handling = true;
        self.disconnect_reason = Some(reason);
    }

    /// Turns the run's flags into its outcome: gameplay actions count as seen
    /// when chat, inventory, movement, breaking and placing all were; the
    /// missing lists name each critical and each optional flag that is off,
    /// in order; the run succeeds when no critical flag is off. Durations and
    /// the disconnect reason stay.
    pub fn finalize(&mut self)
        ensures
            final(self).same_flags(*old(self)),
            final(self).gameplay_actions == gameplay_complete(*old(self)),
            texts(final(self).missing_capabilities@) == missing_names(
                critical_flags(*old(self), gameplay_complete(*old(self))),
            ),
            texts(final(self).optional_capabilities_missing@) == missing_names(optional_flags(*old(self))),
            final(self).success == (final(self).missing_capabilities@.len() == 0),
            final(self).requested_duration_seconds == old(self).requested_duration_seconds,
            final(self).connected_duration_seconds == old(self).connected_duration_seconds,
            final(self).disconnect_reason == old(self).disconnect_reason,
            finalized(*old(self), *final(self)),
    {
        self.gameplay_actions = self.chat && self.inventory_transactions && self.movement
            && self.block_breaking && self.block_placing;
        let critical: Vec<(&'static str, bool)> = vec![
            ("login", self.login),
            ("spawn", self.spawn),
            ("player_spawn", self.player_spawn),
            ("remained_connected", self.remained_connected),
            ("keepalive", self.keepalive),
            ("chat", self.chat),
            ("inventory_transactions", self.inventory_transactions),
            ("movement", self.movement),
            ("block_breaking", self.block_breaking),
            ("block_placing", self.block_placing),
            ("gameplay_actions", self.gameplay_actions),
        ];
        let optional: Vec<(&'static str, bool)> = vec![
            ("forms", self.forms),
            ("disconnect_handling", self.disconnect_handling),
        ];
        assert(critical@ =~= critical_flags(*old(self), gameplay_complete(*old(self))));
        assert(optional@ =~= optional_flags(*old(self)));
        self.missing_capabilities = missing_of(&critical);
        self.optional_capabilities_missing = missing_of(&optional);
        self.success = self.missing_capabilities.len() == 0;
    }
}

impl Default for CapabilityStatus {
    /// The status `new` gives.
    fn default() -> (r: Self)
        ensures
            !r.success && !r.login && !r.spawn && !r.player_spawn && !r.remained_connected,
            !r.keepalive && !r.chat && !r.inventory_transactions && !r.movement,
            !r.block_breaking && !r.block_placing && !r.gameplay_actions && !r.forms,
            !r.disconnect_handling,
            r.requested_duration_seconds == 0,
            r.connected_duration_seconds == 0,
            r.disconnect_reason is None,
            r.missing_capabilities@.len() == 0,
            r.optional_capabilities_missing@.len() == 0,
    {
        CapabilityStatus::new()
    }
}

/// A copy of each string, in order.
fn copy_strings(v: &Vec<String>) -> (r: Vec<String>)
    ensures
        texts(r@) == texts(v@),
{
    let mut out: Vec<String> = Vec::new();
    let mut i: usize = 0;
    while i < v.len()
        invariant
            i <= v@.len(),
            texts(out@) == texts(v@.take(i as int)),
        decreases v@.len() - i,
    {
        let s = v[i].clone();
        assert(texts(out@.push(s)) =~= texts(out@).push(s@));
        assert(texts(v@.take(i as int + 1)) =~= texts(v@.take(i as int)).push(v@[i as int]@));
        out.push(s);
        i = i + 1;
    }
    assert(v@.take(i as int) =~= v@);
    out
}

} // verus!
