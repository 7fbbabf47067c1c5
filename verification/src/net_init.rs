//! Initializing the host's VM networks: the decisions around the networks
//! that were created or validated in parallel.
//!
//! An existing network is kept only when both its inbound SSH rule and its
//! TAP device exist; otherwise its record is deleted and it is built again.
//! Once every network is ready, their inbound SSH rules are added in one
//! batch; if that fails, every network is deleted (its kernel resources,
//! then its record) before the batch's error is reported, whatever those
//! deletions' outcomes.
use vstd::prelude::*;
use vstd::assert_seqs_equal;

verus! {

/// What becomes of a network found in the store at startup.
#[derive(Clone, Copy, PartialEq, Eq, Structural, Debug)]
pub enum ExistingNetwork {
    Keep,
    /// Delete its record and build it again.
    Rebuild,
}

/// Decides about a stored network, given whether its inbound SSH rule and
/// its TAP device exist.
pub fn check_existing_network(ssh_rule_exists: bool, tap_exists: bool) -> (r: ExistingNetwork)
    ensures
        r == ExistingNetwork::Keep <==> ssh_rule_exists && tap_exists,
{
    if ssh_rule_exists && tap_exists {
        ExistingNetwork::Keep
    } else {
        ExistingNetwork::Rebuild
    }
}

pub enum InitEvent<E> {
    Succeeded,
    Failed(E),
}

pub enum InitAction<E> {
    /// Add the inbound SSH rules of all ready networks in one batch.
    AddSshRules,
    /// Delete the kernel resources of the ready network at this position.
    DeleteNetwork(usize),
    /// Delete the record of the ready network at this position.
    DeleteRecord(usize),
    Finish(Result<(), E>),
}

#[derive(Clone, Copy, PartialEq, Eq, Structural, Debug)]
pub enum InitStage {
    AddingRules,
    DeletingNetwork,
    DeletingRecord,
    Finished,
}

/// Finishes initializing `count` ready networks.
pub struct NetworkInit<E> {
    stage: InitStage,
    count: usize,
    index: usize,
    error: Option<E>,
}

pub struct NetworkInitView<E> {
    pub stage: InitStage,
    pub count: nat,
    /// The network being deleted.
    pub index: nat,
    /// The batch's error, reported once every network is deleted.
    pub error: Option<E>,
}

impl<E> View for NetworkInit<E> {
    type V = NetworkInitView<E>;

    closed spec fn view(&self) -> NetworkInitView<E> {
        NetworkInitView { stage: self.stage, count: self.count as nat, index: self.index as nat, error: self.error }
    }
}

pub open spec fn init_start<E>(count: nat) -> (NetworkInitView<E>, InitAction<E>) {
    if count == 0 {
        (NetworkInitView { stage: InitStage::Finished, count, index: 0, error: None }, InitAction::Finish(Ok(())))
    } else {
        (NetworkInitView { stage: InitStage::AddingRules, count, index: 0, error: None }, InitAction::AddSshRules)
    }
}

/// Delete the network at `index`, or report `e` once all are deleted.
pub open spec fn delete_from<E>(count: nat, index: nat, e: E) -> (NetworkInitView<E>, InitAction<E>) {
    if index < count {
        (
            NetworkInitView { stage: InitStage::DeletingNetwork, count, index, error: Some(e) },
            InitAction::DeleteNetwork(index as usize),
        )
    } else {
        (NetworkInitView { stage: InitStage::Finished, count, index, error: None }, InitAction::Finish(Err(e)))
    }
}

pub open spec fn init_next<E>(s: NetworkInitView<E>, ev: InitEvent<E>) -> (NetworkInitView<E>, InitAction<E>) {
    match s.stage {
        InitStage::AddingRules => match ev {
            InitEvent::Succeeded => (NetworkInitView { stage: InitStage::Finished, error: None, ..s }, InitAction::Finish(Ok(()))),
            InitEvent::Failed(e) => delete_from(s.count, 0, e),
        },
        InitStage::DeletingNetwork => (
            NetworkInitView { stage: InitStage::DeletingRecord, ..s },
            InitAction::DeleteRecord(s.index as usize),
        ),
        InitStage::DeletingRecord => match s.error {
            Some(e) => delete_from(s.count, s.index + 1, e),
            None => (NetworkInitView { stage: InitStage::Finished, ..s }, InitAction::Finish(Ok(()))),
        },
        InitStage::Finished => (s, InitAction::Finish(Ok(()))),
    }
}

pub open spec fn init_trace<E>(s: NetworkInitView<E>, events: Seq<InitEvent<E>>) -> Seq<InitAction<E>>
    decreases events.len(),
{
    if events.len() == 0 || s.stage == InitStage::Finished {
        Seq::empty()
    } else {
        let (t, a) = init_next(s, events[0]);
        seq![a] + init_trace(t, events.drop_first())
    }
}

/// The deletions of the networks from `index` on, in order: each network's
/// kernel resources, then its record.
pub open spec fn deletions<E>(index: nat, count: nat) -> Seq<InitAction<E>>
    decreases count - index,
{
    if index < count {
        seq![InitAction::DeleteNetwork(index as usize), InitAction::DeleteRecord(index as usize)] + deletions(
            index + 1,
            count,
        )
    } else {
        Seq::empty()
    }
}

proof fn lemma_deleting_trace<E>(s: NetworkInitView<E>, events: Seq<InitEvent<E>>)
    requires
        s.stage == InitStage::DeletingNetwork,
        s.error is Some,
        s.index < s.count,
        events.len() == 2 * (s.count - s.index),
    ensures
        init_trace(s, events) == (seq![InitAction::<E>::DeleteRecord(s.index as usize)] + deletions::<E>(
            s.index + 1,
            s.count,
        )).push(InitAction::Finish(Err(s.error->0))),
    decreases s.count - s.index,
{
    let e = s.error->0;
    let (t, b) = init_next(s, events[0]);
    let rest = events.drop_first();
    let (u, c) = init_next(t, rest[0]);
    let rest2 = rest.drop_first();
    assert(init_trace(s, events) == seq![b] + init_trace(t, rest));
    assert(init_trace(t, rest) == seq![c] + init_trace(u, rest2));
    if s.index + 1 < s.count {
        lemma_deleting_trace(u, rest2);
        assert(deletions::<E>(s.index + 1, s.count) == seq![
            InitAction::<E>::DeleteNetwork((s.index + 1) as usize),
            InitAction::<E>::DeleteRecord((s.index + 1) as usize),
        ] + deletions::<E>(s.index + 2, s.count));
        assert_seqs_equal!(
            init_trace(s, events),
            (seq![InitAction::<E>::DeleteRecord(s.index as usize)] + deletions::<E>(s.index + 1, s.count)).push(
                InitAction::Finish(Err(e)),
            )
        );
    } else {
        assert(u.stage == InitStage::Finished);
        assert(init_trace(u, rest2) == Seq::<InitAction<E>>::empty());
        assert(deletions::<E>(s.index + 1, s.count) == Seq::<InitAction<E>>::empty());
        assert_seqs_equal!(
            init_trace(s, events),
            (seq![InitAction::<E>::DeleteRecord(s.index as usize)] + deletions::<E>(s.index + 1, s.count)).push(
                InitAction::Finish(Err(e)),
            )
        );
    }
}

/// When the batch of SSH rules fails, every ready network is deleted, in
/// order (kernel resources, then record), and only then is the batch's
/// error reported, whatever the deletions' outcomes.
pub proof fn lemma_failed_rules_delete_every_network<E>(count: nat, e: E, outcomes: Seq<InitEvent<E>>)
    requires
        count > 0,
        outcomes.len() == 2 * count,
    ensures
        ({
            let (s, first) = init_start::<E>(count);
            seq![first] + init_trace(s, seq![InitEvent::Failed(e)] + outcomes) == seq![InitAction::<E>::AddSshRules]
                + deletions::<E>(0, count).push(InitAction::Finish(Err(e)))
        }),
{
    let (s, first) = init_start::<E>(count);
    let events = seq![InitEvent::Failed(e)] + outcomes;
    assert(events[0] == InitEvent::<E>::Failed(e));
    assert(events.drop_first() =~= outcomes);
    let (t, a) = init_next(s, events[0]);
    lemma_deleting_trace(t, outcomes);
    assert(init_trace(s, events) == seq![a] + init_trace(t, outcomes));
    assert(deletions::<E>(0, count) == seq![InitAction::<E>::DeleteNetwork(0), InitAction::<E>::DeleteRecord(0)]
        + deletions::<E>(1, count));
    assert_seqs_equal!(
        seq![first] + init_trace(s, events),
        seq![InitAction::<E>::AddSshRules] + deletions::<E>(0, count).push(InitAction::Finish(Err(e)))
    );
}

impl<E> NetworkInit<E> {
    #[verifier::type_invariant]
    spec fn well_formed(self) -> bool {
        &&& (self.stage == InitStage::DeletingNetwork || self.stage == InitStage::DeletingRecord) ==> self.error is Some
            && self.index < self.count
    }

    /// Starts finishing the initialization of `count` ready networks.
    pub fn start(count: usize) -> (r: (Self, InitAction<E>))
        ensures
            (r.0@, r.1) == init_start::<E>(count as nat),
    {
        if count == 0 {
            (NetworkInit { stage: InitStage::Finished, count, index: 0, error: None }, InitAction::Finish(Ok(())))
        } else {
            (NetworkInit { stage: InitStage::AddingRules, count, index: 0, error: None }, InitAction::AddSshRules)
        }
    }

    pub fn is_finished(&self) -> (r: bool)
        ensures
            r == (self@.stage == InitStage::Finished),
    {
        self.stage == InitStage::Finished
    }

    fn deleting(count: usize, index: usize, e: E) -> (r: (Self, InitAction<E>))
        requires
            index <= count,
        ensures
            (r.0@, r.1) == delete_from(count as nat, index as nat, e),
    {
        if index < count {
            (NetworkInit { stage: InitStage::DeletingNetwork, count, index, error: Some(e) }, InitAction::DeleteNetwork(index))
        } else {
            (NetworkInit { stage: InitStage::Finished, count, index, error: None }, InitAction::Finish(Err(e)))
        }
    }

    /// Takes the outcome of the last action and returns the next one.
    pub fn step(&mut self, event: InitEvent<E>) -> (r: InitAction<E>)
        requires
            old(self)@.stage != InitStage::Finished,
        ensures
            (final(self)@, r) == init_next(old(self)@, event),
    {
        let mut cur = NetworkInit { stage: InitStage::Finished, count: 0, index: 0, error: None };
        std::mem::swap(&mut cur, self);
        proof {
            use_type_invariant(&cur);
        }
        let NetworkInit { stage, count, index, error } = cur;
        let (next, action) = match stage {
            InitStage::AddingRules => match event {
                InitEvent::Succeeded => (
                    NetworkInit { stage: InitStage::Finished, count, index, error: None },
                    InitAction::Finish(Ok(())),
                ),
                InitEvent::Failed(e) => Self::deleting(count, 0, e),
            },
            InitStage::DeletingNetwork => (
                NetworkInit { stage: InitStage::DeletingRecord, count, index, error },
                InitAction::DeleteRecord(index),
            ),
            InitStage::DeletingRecord => match error {
                Some(e) => Self::deleting(count, index + 1, e),
                None => (NetworkInit { stage: InitStage::Finished, count, index, error: None }, InitAction::Finish(Ok(()))),
            },
            InitStage::Finished => (NetworkInit { stage: InitStage::Finished, count, index, error: None }, InitAction::Finish(Ok(()))),
        };
        *self = next;
        action
    }
}

} // verus!
