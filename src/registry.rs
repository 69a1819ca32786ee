use vstd::prelude::*;

verus! {

/// Number of device slots a snapshot reports on.
pub const MAX_TRACKED_DEVICES: usize = 16;

/// Slots below `n`, in ascending order, whose flag is set.
pub open spec fn slots_where(flags: Seq<bool>, n: int) -> Seq<u32>
    decreases n,
{
    if n <= 0 {
        seq![]
    } else if flags[n - 1] {
        slots_where(flags, n - 1).push((n - 1) as u32)
    } else {
        slots_where(flags, n - 1)
    }
}

/// Connectivity of a frame in which no device is connected.
pub open spec fn all_disconnected() -> Seq<bool> {
    Seq::new(16, |i: int| false)
}

/// Slots that are connected but not registered.
pub open spec fn added_flags(registered: Seq<bool>, connected: Seq<bool>) -> Seq<bool> {
    Seq::new(16, |i: int| !registered[i] && connected[i])
}

/// Slots that are registered but no longer connected.
pub open spec fn removed_flags(registered: Seq<bool>, connected: Seq<bool>) -> Seq<bool> {
    Seq::new(16, |i: int| registered[i] && !connected[i])
}

/// A list of slots as reported to the consumer: nothing when it is empty.
pub open spec fn non_empty(slots: Seq<u32>) -> Option<Seq<u32>> {
    if slots.len() == 0 {
        None
    } else {
        Some(slots)
    }
}

/// The contents of a reported list of slots.
pub open spec fn list_view(r: Option<Vec<u32>>) -> Option<Seq<u32>> {
    match r {
        None => None,
        Some(v) => Some(v@),
    }
}

/// The abstract state of a registry: the connectivity of the last snapshot,
/// and the set of slots reported to the consumer as present (absent until the
/// first query for new trackers).
pub struct RegistryState {
    pub snapshot: Option<Seq<bool>>,
    pub registered: Option<Seq<bool>>,
}

/// A registry that has seen no snapshot and reported nothing.
pub open spec fn initial_state() -> RegistryState {
    RegistryState { snapshot: None, registered: None }
}

/// The state once a new snapshot with the given connectivity is recorded.
pub open spec fn record_state(st: RegistryState, connected: Seq<bool>) -> RegistryState {
    RegistryState { snapshot: Some(connected), registered: st.registered }
}

/// What a query for new trackers reports in state `st`.
pub open spec fn new_trackers_result(st: RegistryState) -> Option<Seq<u32>> {
    match st.registered {
        None => match st.snapshot {
            None => Some(seq![]),
            Some(c) => Some(slots_where(c, 16)),
        },
        Some(reg) => match st.snapshot {
            None => None,
            Some(c) => non_empty(slots_where(added_flags(reg, c), 16)),
        },
    }
}

/// The state after a query for new trackers.
pub open spec fn after_new_trackers(st: RegistryState) -> RegistryState {
    RegistryState {
        snapshot: st.snapshot,
        registered: Some(
            match st.registered {
                None => match st.snapshot {
                    None => all_disconnected(),
                    Some(c) => c,
                },
                Some(reg) => match st.snapshot {
                    None => reg,
                    Some(c) => Seq::new(16, |i: int| reg[i] || c[i]),
                },
            },
        ),
    }
}

/// What a query for removed trackers reports in state `st`.
pub open spec fn removed_trackers_result(st: RegistryState) -> Option<Seq<u32>> {
    match st.registered {
        None => None,
        Some(reg) => match st.snapshot {
            None => None,
            Some(c) => non_empty(slots_where(removed_flags(reg, c), 16)),
        },
    }
}

/// The state after a query for removed trackers.
pub open spec fn after_removed_trackers(st: RegistryState) -> RegistryState {
    RegistryState {
        snapshot: st.snapshot,
        registered: match st.registered {
            None => None,
            Some(reg) => match st.snapshot {
                None => Some(reg),
                Some(c) => Some(Seq::new(16, |i: int| reg[i] && c[i])),
            },
        },
    }
}

/// Keeps track of which device slots have been reported to the consumer as
/// present, and diffs each new connectivity snapshot against that set.
pub struct TrackerRegistry {
    snapshot: Option<[bool; 16]>,
    registered: Option<[bool; 16]>,
}

impl View for TrackerRegistry {
    type V = RegistryState;

    closed spec fn view(&self) -> RegistryState {
        RegistryState {
            snapshot: match self.snapshot {
                None => None,
                Some(c) => Some(c@),
            },
            registered: match self.registered {
                None => None,
                Some(r) => Some(r@),
            },
        }
    }
}

impl TrackerRegistry {
    /// A registry before any snapshot.
    pub fn new() -> (r: TrackerRegistry)
        ensures
            r@ == initial_state(),
    {
        TrackerRegistry { snapshot: None, registered: None }
    }

    /// Replaces the last snapshot by a new one; `connected[i]` tells whether
    /// the device in slot `i` is connected.
    pub fn record_snapshot(&mut self, connected: [bool; 16])
        ensures
            final(self)@ == record_state(old(self)@, connected@),
    {
        self.snapshot = Some(connected);
    }

    /// Whether a snapshot has been recorded.
    pub fn has_snapshot(&self) -> (r: bool)
        ensures
            r == self@.snapshot is Some,
    {
        self.snapshot.is_some()
    }

    /// Reports the slots that became connected since they were last
    /// registered, in ascending order, and registers them. The first query
    /// reports every slot connected in the last snapshot (an empty list when
    /// there is none) and starts the registered set from it.
    pub fn get_new_trackers(&mut self) -> (r: Option<Vec<u32>>)
        ensures
            list_view(r) == new_trackers_result(old(self)@),
            final(self)@ == after_new_trackers(old(self)@),
    {
        match self.registered {
            None => match self.snapshot {
                None => {
                    self.registered = Some([false; 16]);
                    proof {
                        assert(self.registered->0@ =~= all_disconnected());
                    }
                    Some(Vec::new())
                },
                Some(connected) => {
                    let mut added: Vec<u32> = Vec::new();
                    let mut i: usize = 0;
                    while i < MAX_TRACKED_DEVICES
                        invariant
                            i <= 16,
                            added@ == slots_where(connected@, i as int),
                        decreases 16 - i,
                    {
                        if connected[i] {
                            added.push(i as u32);
                        }
                        i += 1;
                    }
                    self.registered = Some(connected);
                    Some(added)
                },
            },
            Some(registered) => match self.snapshot {
                None => None,
                Some(connected) => {
                    let ghost flags = added_flags(registered@, connected@);
                    let mut now: [bool; 16] = registered;
                    let mut added: Vec<u32> = Vec::new();
                    let mut i: usize = 0;
                    while i < MAX_TRACKED_DEVICES
                        invariant
                            i <= 16,
                            flags == added_flags(registered@, connected@),
                            added@ == slots_where(flags, i as int),
                            forall|j: int|
                                0 <= j < 16 ==> now@[j] == if j < i {
                                    registered@[j] || connected@[j]
                                } else {
                                    registered@[j]
                                },
                        decreases 16 - i,
                    {
                        assert(flags[i as int] == (!registered@[i as int] && connected@[i as int]));
                        if !registered[i] && connected[i] {
                            added.push(i as u32);
                            now[i] = true;
                        }
                        i += 1;
                    }
                    assert(now@ =~= Seq::new(16, |j: int| registered@[j] || connected@[j]));
                    self.registered = Some(now);
                    if added.len() == 0 {
                        None
                    } else {
                        Some(added)
                    }
                },
            },
        }
    }

    /// Reports the registered slots that are no longer connected, in
    /// ascending order, and unregisters them. Nothing is reported before the
    /// first query for new trackers, nor without a snapshot.
    pub fn get_removed_trackers(&mut self) -> (r: Option<Vec<u32>>)
        ensures
            list_view(r) == removed_trackers_result(old(self)@),
            final(self)@ == after_removed_trackers(old(self)@),
    {
        match self.registered {
            None => None,
            Some(registered) => match self.snapshot {
                None => None,
                Some(connected) => {
                    let ghost flags = removed_flags(registered@, connected@);
                    let mut now: [bool; 16] = registered;
                    let mut removed: Vec<u32> = Vec::new();
                    let mut i: usize = 0;
                    while i < MAX_TRACKED_DEVICES
                        invariant
                            i <= 16,
                            flags == removed_flags(registered@, connected@),
                            removed@ == slots_where(flags, i as int),
                            forall|j: int|
                                0 <= j < 16 ==> now@[j] == if j < i {
                                    registered@[j] && connected@[j]
                                } else {
                                    registered@[j]
                                },
                        decreases 16 - i,
                    {
                        assert(flags[i as int] == (registered@[i as int] && !connected@[i as int]));
                        if registered[i] && !connected[i] {
                            removed.push(i as u32);
                            now[i] = false;
                        }
                        i += 1;
                    }
                    assert(now@ =~= Seq::new(16, |j: int| registered@[j] && connected@[j]));
                    self.registered = Some(now);
                    if removed.len() == 0 {
                        None
                    } else {
                        Some(removed)
                    }
                },
            },
        }
    }
}

/// Whether a report names `slot`.
pub open spec fn reports(r: Option<Seq<u32>>, slot: int) -> bool {
    r matches Some(s) && s.contains(slot as u32)
}

/// One step of a registry's life: a snapshot recorded, or a query.
pub enum RegistryOp {
    Record(Seq<bool>),
    QueryNew,
    QueryRemoved,
}

/// The state after one step.
pub open spec fn apply_op(st: RegistryState, op: RegistryOp) -> RegistryState {
    match op {
        RegistryOp::Record(c) => record_state(st, c),
        RegistryOp::QueryNew => after_new_trackers(st),
        RegistryOp::QueryRemoved => after_removed_trackers(st),
    }
}

/// The state of a new registry after the first `n` steps of `ops`.
pub open spec fn state_after_ops(ops: Seq<RegistryOp>, n: int) -> RegistryState
    decreases n,
{
    if n <= 0 {
        initial_state()
    } else {
        apply_op(state_after_ops(ops, n - 1), ops[n - 1])
    }
}

/// Whether step `k` of `ops` is a query for new trackers that reports `slot`.
pub open spec fn reported_added(ops: Seq<RegistryOp>, k: int, slot: int) -> bool {
    ops[k] is QueryNew && reports(new_trackers_result(state_after_ops(ops, k)), slot)
}

/// Whether step `k` of `ops` is a query for removed trackers that reports
/// `slot`.
pub open spec fn reported_removed(ops: Seq<RegistryOp>, k: int, slot: int) -> bool {
    ops[k] is QueryRemoved && reports(removed_trackers_result(state_after_ops(ops, k)), slot)
}

proof fn lemma_slots_where_contains(flags: Seq<bool>, n: int, slot: int)
    requires
        0 <= n <= 16,
        0 <= slot < 16,
    ensures
        slots_where(flags, n).contains(slot as u32) <==> (slot < n && flags[slot]),
    decreases n,
{
    if n > 0 {
        lemma_slots_where_contains(flags, n - 1, slot);
        let prev = slots_where(flags, n - 1);
        if flags[n - 1] {
            let next = prev.push((n - 1) as u32);
            if next.contains(slot as u32) {
                let w = choose|w: int| 0 <= w < next.len() && next[w] == slot as u32;
                if w < prev.len() {
                    assert(prev[w] == slot as u32);
                }
            }
            if slot == n - 1 {
                assert(next[prev.len() as int] == slot as u32);
            }
            if prev.contains(slot as u32) {
                let w = choose|w: int| 0 <= w < prev.len() && prev[w] == slot as u32;
                assert(next[w] == slot as u32);
            }
        }
    }
}

proof fn lemma_reports_flag(flags: Seq<bool>, slot: int)
    requires
        0 <= slot < 16,
    ensures
        reports(non_empty(slots_where(flags, 16)), slot) <==> flags[slot],
        reports(Some(slots_where(flags, 16)), slot) <==> flags[slot],
{
    lemma_slots_where_contains(flags, 16, slot);
}

/// A slot registered after `n` steps was reported added at some step `j`,
/// and no step after `j` reported it again, added or removed.
proof fn lemma_registered_since_added(ops: Seq<RegistryOp>, n: int, slot: int) -> (j: int)
    requires
        0 <= n <= ops.len(),
        0 <= slot < 16,
        state_after_ops(ops, n).registered matches Some(reg) && reg[slot],
    ensures
        0 <= j < n,
        reported_added(ops, j, slot),
        forall|m: int|
            j < m < n ==> !reported_added(ops, m, slot) && !reported_removed(ops, m, slot),
    decreases n,
{
    let prev = state_after_ops(ops, n - 1);
    let op = ops[n - 1];
    match op {
        RegistryOp::Record(c) => {
            let j = lemma_registered_since_added(ops, n - 1, slot);
            assert forall|m: int| j < m < n implies !reported_added(ops, m, slot)
                && !reported_removed(ops, m, slot) by {
                if m == n - 1 {
                }
            }
            j
        },
        RegistryOp::QueryNew => {
            if reported_added(ops, n - 1, slot) {
                n - 1
            } else {
                match prev.registered {
                    None => match prev.snapshot {
                        None => {
                            assert(all_disconnected()[slot] == false);
                        },
                        Some(c) => {
                            lemma_reports_flag(c, slot);
                        },
                    },
                    Some(reg) => match prev.snapshot {
                        None => {},
                        Some(c) => {
                            lemma_reports_flag(added_flags(reg, c), slot);
                        },
                    },
                }
                let j = lemma_registered_since_added(ops, n - 1, slot);
                assert forall|m: int| j < m < n implies !reported_added(ops, m, slot)
                    && !reported_removed(ops, m, slot) by {
                    if m == n - 1 {
                    }
                }
                j
            }
        },
        RegistryOp::QueryRemoved => {
            if let (Some(reg), Some(c)) = (prev.registered, prev.snapshot) {
                lemma_reports_flag(removed_flags(reg, c), slot);
            }
            let j = lemma_registered_since_added(ops, n - 1, slot);
            assert forall|m: int| j < m < n implies !reported_added(ops, m, slot)
                && !reported_removed(ops, m, slot) by {
                if m == n - 1 {
                }
            }
            j
        },
    }
}

/// Whatever the order of snapshots and queries, a slot is reported removed
/// only if an earlier query reported it added, and no query in between
/// reported it again, added or removed.
pub proof fn lemma_removed_only_after_added(ops: Seq<RegistryOp>, k: int, slot: int)
    requires
        0 <= k < ops.len(),
        0 <= slot < 16,
        reported_removed(ops, k, slot),
    ensures
        exists|j: int|
            0 <= j < k && #[trigger] reported_added(ops, j, slot) && forall|m: int|
                j < m < k ==> !reported_added(ops, m, slot) && !reported_removed(ops, m, slot),
{
    let st = state_after_ops(ops, k);
    let reg = st.registered->0;
    let c = st.snapshot->0;
    lemma_reports_flag(removed_flags(reg, c), slot);
    let j = lemma_registered_since_added(ops, k, slot);
    assert(reported_added(ops, j, slot));
}

/// Against one snapshot, no slot is reported both added and removed,
/// whichever of the two queries comes first.
pub proof fn lemma_added_removed_exclusive(st: RegistryState, slot: int)
    requires
        0 <= slot < 16,
    ensures
        !(reports(new_trackers_result(st), slot) && reports(
            removed_trackers_result(after_new_trackers(st)),
            slot,
        )),
        !(reports(removed_trackers_result(st), slot) && reports(
            new_trackers_result(after_removed_trackers(st)),
            slot,
        )),
{
    if let Some(c) = st.snapshot {
        let after_new = after_new_trackers(st).registered->0;
        lemma_reports_flag(c, slot);
        lemma_reports_flag(removed_flags(after_new, c), slot);
        if let Some(reg) = st.registered {
            lemma_reports_flag(added_flags(reg, c), slot);
            lemma_reports_flag(removed_flags(reg, c), slot);
            let after_removed = Seq::new(16, |i: int| reg[i] && c[i]);
            lemma_reports_flag(added_flags(after_removed, c), slot);
        }
    }
}

} // verus!
