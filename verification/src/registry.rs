//! The flow registry: a mapping from flow key to a per-flow delivery channel.
//!
//! The registry is owned by a single task and reached only through an ordered
//! command queue, so its operations are linearizable without a lock.  This
//! module holds the state and the decision logic: a command is applied to the
//! state and yields an outcome; the task that owns the registry performs the
//! outcome (delivering a payload on the named channel) and reports the
//! anomalies (collisions, missing keys), which are never fatal.
//!
//! A channel is represented by an integer handle; the owning task keeps the
//! association from handle to the real channel sender.

use vstd::prelude::*;

verus! {

broadcast use vstd::map::group_map_axioms;

/// One registry entry: a flow key and the handle of the channel that delivers
/// to that flow's client connection.
pub struct FlowEntry {
    pub key: String,
    pub chan: u64,
}

/// A command for the registry, consumed from its single queue.
#[derive(Debug, PartialEq, Eq)]
pub enum RegistryCommand {
    /// Register a flow: map `key` to the channel handle `chan`.
    Insert { key: String, chan: u64 },
    /// Deregister the flow under `key`.
    Remove { key: String },
    /// Deliver `payload` to the flow under `key`.
    Send { key: String, payload: Vec<u8> },
}

/// The mathematical value of a [`RegistryCommand`].
pub enum CommandV {
    Insert(Seq<char>, u64),
    Remove(Seq<char>),
    Send(Seq<char>, Seq<u8>),
}

impl View for RegistryCommand {
    type V = CommandV;

    open spec fn view(&self) -> CommandV {
        match self {
            RegistryCommand::Insert { key, chan } => CommandV::Insert(key@, *chan),
            RegistryCommand::Remove { key } => CommandV::Remove(key@),
            RegistryCommand::Send { key, payload } => CommandV::Send(key@, payload@),
        }
    }
}

/// What applying one command did.
#[derive(Debug, PartialEq, Eq)]
pub enum RegistryOutcome {
    /// The key was fresh and is now registered.
    Inserted,
    /// The key was already present: the first registrant is kept, the new
    /// channel is never stored, and the collision is only reported.
    Collision,
    /// The key was present and is now removed; `chan` is the handle that was
    /// registered under it, so its owner can release it.
    Removed { chan: u64 },
    /// The key was not present; reported, never fatal.
    NotPresent,
    /// The payload is to be delivered on the channel with handle `chan`.
    Deliver { chan: u64, payload: Vec<u8> },
}

/// The mathematical value of a [`RegistryOutcome`].
pub enum OutcomeV {
    Inserted,
    Collision,
    Removed(u64),
    NotPresent,
    Deliver(u64, Seq<u8>),
}

impl View for RegistryOutcome {
    type V = OutcomeV;

    open spec fn view(&self) -> OutcomeV {
        match self {
            RegistryOutcome::Inserted => OutcomeV::Inserted,
            RegistryOutcome::Collision => OutcomeV::Collision,
            RegistryOutcome::Removed { chan } => OutcomeV::Removed(*chan),
            RegistryOutcome::NotPresent => OutcomeV::NotPresent,
            RegistryOutcome::Deliver { chan, payload } => OutcomeV::Deliver(*chan, payload@),
        }
    }
}

/// What one command does to the registry state, and what it reports.
pub open spec fn registry_step(m: Map<Seq<char>, u64>, cmd: CommandV) -> (Map<Seq<char>, u64>, OutcomeV) {
    match cmd {
        CommandV::Insert(k, c) => {
            if m.contains_key(k) {
                (m, OutcomeV::Collision)
            } else {
                (m.insert(k, c), OutcomeV::Inserted)
            }
        },
        CommandV::Remove(k) => {
            if m.contains_key(k) {
                (m.remove(k), OutcomeV::Removed(m[k]))
            } else {
                (m, OutcomeV::NotPresent)
            }
        },
        CommandV::Send(k, p) => {
            if m.contains_key(k) {
                (m, OutcomeV::Deliver(m[k], p))
            } else {
                (m, OutcomeV::NotPresent)
            }
        },
    }
}

/// The map denoted by a sequence of entries (later entries would win, but the
/// registry keeps its keys unique, so no two entries share a key).
pub open spec fn entries_map(es: Seq<FlowEntry>) -> Map<Seq<char>, u64>
    decreases es.len(),
{
    if es.len() == 0 {
        Map::empty()
    } else {
        entries_map(es.drop_last()).insert(es.last().key@, es.last().chan)
    }
}

/// No two entries share a key.
pub open spec fn unique_keys(es: Seq<FlowEntry>) -> bool {
    forall|i: int, j: int|
        0 <= i < j < es.len() ==> es[i].key@ != es[j].key@
}

proof fn lemma_entries_map_dom(es: Seq<FlowEntry>, k: Seq<char>)
    ensures
        entries_map(es).contains_key(k) <==> exists|i: int|
            0 <= i < es.len() && es[i].key@ == k,
    decreases es.len(),
{
    if es.len() == 0 {
    } else {
        lemma_entries_map_dom(es.drop_last(), k);
        if es.last().key@ == k {
            assert(es[es.len() - 1].key@ == k);
        } else {
            if exists|i: int| 0 <= i < es.len() - 1 && es.drop_last()[i].key@ == k {
                let i = choose|i: int| 0 <= i < es.len() - 1 && es.drop_last()[i].key@ == k;
                assert(es[i].key@ == k);
            }
            if exists|i: int| 0 <= i < es.len() && es[i].key@ == k {
                let i = choose|i: int| 0 <= i < es.len() && es[i].key@ == k;
                assert(es.drop_last()[i].key@ == k);
            }
        }
    }
}

proof fn lemma_entries_map_at(es: Seq<FlowEntry>, i: int)
    requires
        unique_keys(es),
        0 <= i < es.len(),
    ensures
        entries_map(es).contains_key(es[i].key@),
        entries_map(es)[es[i].key@] == es[i].chan,
    decreases es.len(),
{
    if i == es.len() - 1 {
    } else {
        assert(unique_keys(es.drop_last()));
        lemma_entries_map_at(es.drop_last(), i);
        assert(es.drop_last()[i] == es[i]);
        assert(es[i].key@ != es.last().key@);
    }
}

proof fn lemma_unique_keys_remove(es: Seq<FlowEntry>, i: int)
    requires
        unique_keys(es),
        0 <= i < es.len(),
    ensures
        unique_keys(es.remove(i)),
{
    assert forall|a: int, b: int|
        0 <= a < b < es.remove(i).len() implies es.remove(i)[a].key@ != es.remove(i)[b].key@ by {
        let a0: int = if a < i {
            a
        } else {
            a + 1
        };
        let b0: int = if b < i {
            b
        } else {
            b + 1
        };
        assert(es.remove(i)[a] == es[a0]);
        assert(es.remove(i)[b] == es[b0]);
    }
}

proof fn lemma_entries_map_remove(es: Seq<FlowEntry>, i: int)
    requires
        unique_keys(es),
        0 <= i < es.len(),
    ensures
        entries_map(es.remove(i)) == entries_map(es).remove(es[i].key@),
    decreases es.len(),
{
    let k = es[i].key@;
    if i == es.len() - 1 {
        assert(es.remove(i) =~= es.drop_last());
        lemma_entries_map_dom(es.drop_last(), k);
        assert(forall|j: int| 0 <= j < es.len() - 1 ==> es.drop_last()[j] == es[j]);
        assert(!entries_map(es.drop_last()).contains_key(k));
        assert(entries_map(es.drop_last()) =~= entries_map(es).remove(k));
    } else {
        assert(unique_keys(es.drop_last()));
        lemma_entries_map_remove(es.drop_last(), i);
        assert(es.remove(i).len() == es.len() - 1);
        assert(es.remove(i).drop_last() =~= es.drop_last().remove(i));
        assert(es.remove(i).last() == es.last());
        assert(entries_map(es.remove(i)) == entries_map(es.drop_last().remove(i)).insert(
            es.last().key@,
            es.last().chan,
        ));
        assert(es.last().key@ != k);
        assert(entries_map(es.drop_last()).remove(k).insert(es.last().key@, es.last().chan)
            =~= entries_map(es.drop_last()).insert(es.last().key@, es.last().chan).remove(k));
    }
}

/// The registry state: the entries, keyed uniquely.
pub struct Registry {
    entries: Vec<FlowEntry>,
}

impl View for Registry {
    type V = Map<Seq<char>, u64>;

    closed spec fn view(&self) -> Map<Seq<char>, u64> {
        entries_map(self.entries@)
    }
}

impl Registry {
    /// The structural invariant: entry keys are unique, so the entries denote
    /// their map faithfully.
    pub closed spec fn wf(&self) -> bool {
        unique_keys(self.entries@)
    }

    /// An empty registry.
    pub fn new() -> (r: Registry)
        ensures
            r.wf(),
            r@ == Map::<Seq<char>, u64>::empty(),
    {
        Registry { entries: Vec::new() }
    }

    /// The index of the entry under `key`, if one exists.
    fn find_index(&self, key: &String) -> (r: Option<usize>)
        ensures
            match r {
                Some(i) => i < self.entries@.len() && self.entries@[i as int].key@ == key@,
                None => forall|j: int|
                    0 <= j < self.entries@.len() ==> self.entries@[j].key@ != key@,
            },
    {
        let mut i: usize = 0;
        while i < self.entries.len()
            invariant
                i <= self.entries@.len(),
                forall|j: int| 0 <= j < i ==> self.entries@[j].key@ != key@,
            decreases self.entries@.len() - i,
        {
            if self.entries[i].key == *key {
                return Some(i);
            }
            i = i + 1;
        }
        None
    }

    /// Register `key`; a key already present is kept as it was and the new
    /// channel is only reported as a collision, never stored.
    pub fn insert(&mut self, key: String, chan: u64) -> (r: RegistryOutcome)
        requires
            old(self).wf(),
        ensures
            final(self).wf(),
            (final(self)@, r@) == registry_step(old(self)@, CommandV::Insert(key@, chan)),
    {
        match self.find_index(&key) {
            Some(i) => {
                proof {
                    lemma_entries_map_dom(self.entries@, key@);
                }
                RegistryOutcome::Collision
            },
            None => {
                proof {
                    lemma_entries_map_dom(self.entries@, key@);
                }
                let ghost old_es = self.entries@;
                self.entries.push(FlowEntry { key, chan });
                proof {
                    assert(self.entries@.drop_last() =~= old_es);
                    assert(forall|j: int|
                        0 <= j < old_es.len() ==> self.entries@[j] == old_es[j]);
                    assert(self.wf());
                }
                RegistryOutcome::Inserted
            },
        }
    }

    /// Deregister `key`; absence is not an error, only reported.  On removal
    /// the outcome carries the channel handle that was registered.
    pub fn remove(&mut self, key: &String) -> (r: RegistryOutcome)
        requires
            old(self).wf(),
        ensures
            final(self).wf(),
            (final(self)@, r@) == registry_step(old(self)@, CommandV::Remove(key@)),
    {
        match self.find_index(key) {
            Some(i) => {
                proof {
                    lemma_entries_map_at(self.entries@, i as int);
                    lemma_unique_keys_remove(self.entries@, i as int);
                    lemma_entries_map_remove(self.entries@, i as int);
                }
                let entry = self.entries.remove(i);
                RegistryOutcome::Removed { chan: entry.chan }
            },
            None => {
                proof {
                    lemma_entries_map_dom(self.entries@, key@);
                }
                RegistryOutcome::NotPresent
            },
        }
    }

    /// Look `key` up for a delivery; the state is never changed, and a failed
    /// delivery never evicts the entry.
    pub fn send(&self, key: &String, payload: Vec<u8>) -> (r: RegistryOutcome)
        requires
            self.wf(),
        ensures
            r@ == registry_step(self@, CommandV::Send(key@, payload@)).1,
    {
        match self.find_index(key) {
            Some(i) => {
                proof {
                    lemma_entries_map_at(self.entries@, i as int);
                }
                let chan = self.entries[i].chan;
                RegistryOutcome::Deliver { chan, payload }
            },
            None => {
                proof {
                    lemma_entries_map_dom(self.entries@, key@);
                }
                RegistryOutcome::NotPresent
            },
        }
    }

    /// The registry's one operation: apply the next command from the queue.
    pub fn apply(&mut self, cmd: RegistryCommand) -> (r: RegistryOutcome)
        requires
            old(self).wf(),
        ensures
            final(self).wf(),
            (final(self)@, r@) == registry_step(old(self)@, cmd@),
    {
        match cmd {
            RegistryCommand::Insert { key, chan } => self.insert(key, chan),
            RegistryCommand::Remove { key } => self.remove(&key),
            RegistryCommand::Send { key, payload } => self.send(&key, payload),
        }
    }
}

/// The state and outcomes after a run of commands, in arrival order.
pub open spec fn run_registry(m: Map<Seq<char>, u64>, cmds: Seq<CommandV>) -> (Map<Seq<char>, u64>, Seq<OutcomeV>)
    decreases cmds.len(),
{
    if cmds.len() == 0 {
        (m, Seq::empty())
    } else {
        let (m1, o) = registry_step(m, cmds[0]);
        let (m2, os) = run_registry(m1, cmds.drop_first());
        (m2, seq![o] + os)
    }
}

/// Law: inserting a fresh key and then sending to it delivers the payload on
/// exactly the registered channel, and leaves the lookup of every other key
/// as it was, so no other flow receives the payload.
pub proof fn lemma_insert_then_send(m: Map<Seq<char>, u64>, k: Seq<char>, c: u64, p: Seq<u8>)
    requires
        !m.contains_key(k),
    ensures
        ({
            let (m1, o1) = registry_step(m, CommandV::Insert(k, c));
            let (m2, o2) = registry_step(m1, CommandV::Send(k, p));
            &&& o1 == OutcomeV::Inserted
            &&& o2 == OutcomeV::Deliver(c, p)
            &&& m2 == m1
            &&& forall|k2: Seq<char>, p2: Seq<u8>|
                k2 != k ==> #[trigger] registry_step(m1, CommandV::Send(k2, p2)).1
                    == registry_step(m, CommandV::Send(k2, p2)).1
        }),
{
}

/// Law: sending a run of payloads to one registered flow yields exactly one
/// delivery per payload, on that flow's channel, in submission order.
pub proof fn lemma_sends_in_order(m: Map<Seq<char>, u64>, k: Seq<char>, payloads: Seq<Seq<u8>>)
    requires
        m.contains_key(k),
    ensures
        run_registry(m, payloads.map_values(|p: Seq<u8>| CommandV::Send(k, p))) == (
            m,
            payloads.map_values(|p: Seq<u8>| OutcomeV::Deliver(m[k], p)),
        ),
    decreases payloads.len(),
{
    let cmds = payloads.map_values(|p: Seq<u8>| CommandV::Send(k, p));
    let outs = payloads.map_values(|p: Seq<u8>| OutcomeV::Deliver(m[k], p));
    if payloads.len() == 0 {
        assert(run_registry(m, cmds).1 =~= outs);
    } else {
        lemma_sends_in_order(m, k, payloads.drop_first());
        assert(cmds.drop_first() =~= payloads.drop_first().map_values(
            |p: Seq<u8>| CommandV::Send(k, p),
        ));
        assert(run_registry(m, cmds).1 =~= outs);
    }
}

/// Law: after a removal the key is absent, and a send to it reports the
/// absence, delivers nothing, and changes nothing.
pub proof fn lemma_remove_then_send(m: Map<Seq<char>, u64>, k: Seq<char>, p: Seq<u8>)
    ensures
        ({
            let (m1, o1) = registry_step(m, CommandV::Remove(k));
            let (m2, o2) = registry_step(m1, CommandV::Send(k, p));
            &&& !m1.contains_key(k)
            &&& !m.contains_key(k) ==> o1 == OutcomeV::NotPresent && m1 == m
            &&& o2 == OutcomeV::NotPresent
            &&& m2 == m1
        }),
{
}

/// Law: a second registration under an occupied key leaves exactly the first
/// registrant's entry, is reported as a collision, and every later send for
/// that key delivers on the first channel, never the second.
pub proof fn lemma_insert_collision_first_wins(
    m: Map<Seq<char>, u64>,
    k: Seq<char>,
    c1: u64,
    c2: u64,
    p: Seq<u8>,
)
    requires
        !m.contains_key(k),
    ensures
        ({
            let (m1, o1) = registry_step(m, CommandV::Insert(k, c1));
            let (m2, o2) = registry_step(m1, CommandV::Insert(k, c2));
            let (m3, o3) = registry_step(m2, CommandV::Send(k, p));
            &&& o1 == OutcomeV::Inserted
            &&& o2 == OutcomeV::Collision
            &&& m2 == m1
            &&& m2 == m.insert(k, c1)
            &&& m2.dom() == m.dom().insert(k)
            &&& o3 == OutcomeV::Deliver(c1, p)
            &&& c1 != c2 ==> o3 != OutcomeV::Deliver(c2, p)
        }),
{
    assert(m.insert(k, c1).dom() =~= m.dom().insert(k));
}

impl RegistryCommand {
    /// The command's name, for reporting.
    pub fn label(&self) -> (s: String)
        ensures
            match self {
                RegistryCommand::Insert { .. } => s@ == "Insert"@,
                RegistryCommand::Remove { .. } => s@ == "Remove"@,
                RegistryCommand::Send { .. } => s@ == "Send"@,
            },
    {
        match self {
            RegistryCommand::Insert { .. } => "Insert".to_owned(),
            RegistryCommand::Remove { .. } => "Remove".to_owned(),
            RegistryCommand::Send { .. } => "Send".to_owned(),
        }
    }
}

} // verus!
