use vstd::prelude::*;

use crate::error::WalletError;

verus! {

/// Where a participant stands in a settlement round.
#[derive(Clone, Copy, Debug, PartialEq, Eq)]
pub enum RoundPhase {
    Idle,
    RegisteringInputs,
    RegisteringOutputs,
    AwaitingRoundSigning,
    GeneratingNonces,
    AwaitingNoncesAggregated,
    SigningTree,
    AwaitingFinalization,
    Finalized,
    Failed,
}

/// What happened since the last step: a response to a request, an event from
/// the coordinator's stream, or the result of local nonce or signature work.
/// A settlement tree is described by its shape: the number of nodes on each level.
#[derive(Clone, Debug, PartialEq, Eq)]
pub enum SessionEvent {
    /// The caller starts the round.
    Start,
    /// The coordinator accepted the inputs.
    InputsRegistered,
    /// The coordinator accepted the outputs and cosigner keys.
    OutputsRegistered,
    /// Stream event: the coordinator announced the unsigned settlement tree.
    RoundSigning { tree: Vec<usize> },
    /// The nonce tree was generated locally, with this shape.
    NoncesGenerated { tree: Vec<usize> },
    /// Stream event: the coordinator sent the aggregated nonce tree.
    RoundSigningNoncesGenerated { tree: Vec<usize> },
    /// The partial signature tree was made locally, with this shape.
    TreeSigned { tree: Vec<usize> },
    /// Stream event: the round transaction was finalized.
    RoundFinalized { round_txid: String },
    /// Stream event of any other kind.
    Unexpected,
    /// A request failed, or the stream failed or ended.
    CoordinatorError,
}

/// The kind of an event, without its data.
#[derive(Clone, Copy, Debug, PartialEq, Eq)]
pub enum EventKind {
    Start,
    InputsRegistered,
    OutputsRegistered,
    RoundSigning,
    NoncesGenerated,
    RoundSigningNoncesGenerated,
    TreeSigned,
    RoundFinalized,
    Unexpected,
    CoordinatorError,
}

/// What the caller must do next. After `Ping`, `SubmitNonces` and
/// `SubmitSignatures` the caller reads the next event of the coordinator's stream.
#[derive(Clone, Debug, PartialEq, Eq)]
pub enum RoundAction {
    RegisterInputs,
    RegisterOutputs,
    Ping,
    GenerateNonces,
    SubmitNonces,
    SignTree,
    SubmitSignatures,
    Finish { round_txid: String },
    Abort { error: WalletError },
    /// The session has ended; nothing is left to do.
    Stop,
}

/// The state of one round attempt: its phase and the shape of the settlement
/// tree that the coordinator announced (empty before the announcement).
pub struct RoundSession {
    pub phase: RoundPhase,
    pub tree: Vec<usize>,
}

pub open spec fn event_kind(e: SessionEvent) -> EventKind {
    match e {
        SessionEvent::Start => EventKind::Start,
        SessionEvent::InputsRegistered => EventKind::InputsRegistered,
        SessionEvent::OutputsRegistered => EventKind::OutputsRegistered,
        SessionEvent::RoundSigning { .. } => EventKind::RoundSigning,
        SessionEvent::NoncesGenerated { .. } => EventKind::NoncesGenerated,
        SessionEvent::RoundSigningNoncesGenerated { .. } => EventKind::RoundSigningNoncesGenerated,
        SessionEvent::TreeSigned { .. } => EventKind::TreeSigned,
        SessionEvent::RoundFinalized { .. } => EventKind::RoundFinalized,
        SessionEvent::Unexpected => EventKind::Unexpected,
        SessionEvent::CoordinatorError => EventKind::CoordinatorError,
    }
}

pub open spec fn is_terminal(p: RoundPhase) -> bool {
    p is Finalized || p is Failed
}

pub open spec fn violation(tree: Seq<usize>) -> (RoundPhase, Seq<usize>, RoundAction) {
    (RoundPhase::Failed, tree, RoundAction::Abort { error: WalletError::ProtocolViolation })
}

/// One transition of the round: from a phase and the announced tree shape, on
/// an event, to the next phase, tree shape and action.
pub open spec fn step_spec(p: RoundPhase, tree: Seq<usize>, e: SessionEvent) -> (
    RoundPhase,
    Seq<usize>,
    RoundAction,
) {
    if is_terminal(p) {
        (p, tree, RoundAction::Stop)
    } else {
        match e {
            SessionEvent::CoordinatorError => (
                RoundPhase::Failed,
                tree,
                RoundAction::Abort { error: WalletError::NetworkUnavailable },
            ),
            SessionEvent::Start => if p is Idle {
                (RoundPhase::RegisteringInputs, tree, RoundAction::RegisterInputs)
            } else {
                violation(tree)
            },
            SessionEvent::InputsRegistered => if p is RegisteringInputs {
                (RoundPhase::RegisteringOutputs, tree, RoundAction::RegisterOutputs)
            } else {
                violation(tree)
            },
            SessionEvent::OutputsRegistered => if p is RegisteringOutputs {
                (RoundPhase::AwaitingRoundSigning, tree, RoundAction::Ping)
            } else {
                violation(tree)
            },
            SessionEvent::RoundSigning { tree: t } => if p is AwaitingRoundSigning {
                (RoundPhase::GeneratingNonces, t@, RoundAction::GenerateNonces)
            } else {
                violation(tree)
            },
            SessionEvent::NoncesGenerated { tree: t } => if p is GeneratingNonces && t@ == tree {
                (RoundPhase::AwaitingNoncesAggregated, tree, RoundAction::SubmitNonces)
            } else {
                violation(tree)
            },
            SessionEvent::RoundSigningNoncesGenerated { tree: t } => if p is AwaitingNoncesAggregated
                && t@ == tree {
                (RoundPhase::SigningTree, tree, RoundAction::SignTree)
            } else {
                violation(tree)
            },
            SessionEvent::TreeSigned { tree: t } => if p is SigningTree && t@ == tree {
                (RoundPhase::AwaitingFinalization, tree, RoundAction::SubmitSignatures)
            } else {
                violation(tree)
            },
            SessionEvent::RoundFinalized { round_txid } => if p is AwaitingFinalization {
                (RoundPhase::Finalized, tree, RoundAction::Finish { round_txid })
            } else {
                violation(tree)
            },
            SessionEvent::Unexpected => violation(tree),
        }
    }
}

/// Whether two tree shapes are the same.
pub fn same_shape(a: &Vec<usize>, b: &Vec<usize>) -> (r: bool)
    ensures
        r == (a@ == b@),
{
    if a.len() != b.len() {
        return false;
    }
    let mut i: usize = 0;
    while i < a.len()
        invariant
            a.len() == b.len(),
            i <= a.len(),
            forall|j: int| 0 <= j < i ==> a@[j] == b@[j],
        decreases a.len() - i,
    {
        if a[i] != b[i] {
            return false;
        }
        i = i + 1;
    }
    assert(a@ =~= b@);
    true
}

impl RoundSession {
    /// A session that has not started.
    pub fn new() -> (r: RoundSession)
        ensures
            r.phase == RoundPhase::Idle,
            r.tree@.len() == 0,
    {
        RoundSession { phase: RoundPhase::Idle, tree: Vec::new() }
    }

    /// Takes one event and returns what to do next.
    pub fn step(&mut self, event: SessionEvent) -> (action: RoundAction)
        ensures
            (final(self).phase, final(self).tree@, action) == step_spec(
                old(self).phase,
                old(self).tree@,
                event,
            ),
    {
        match self.phase {
            RoundPhase::Finalized | RoundPhase::Failed => {
                return RoundAction::Stop;
            },
            _ => {},
        }
        match event {
            SessionEvent::CoordinatorError => {
                self.phase = RoundPhase::Failed;
                RoundAction::Abort { error: WalletError::NetworkUnavailable }
            },
            SessionEvent::Start => match self.phase {
                RoundPhase::Idle => {
                    self.phase = RoundPhase::RegisteringInputs;
                    RoundAction::RegisterInputs
                },
                _ => self.fail(),
            },
            SessionEvent::InputsRegistered => match self.phase {
                RoundPhase::RegisteringInputs => {
                    self.phase = RoundPhase::RegisteringOutputs;
                    RoundAction::RegisterOutputs
                },
                _ => self.fail(),
            },
            SessionEvent::OutputsRegistered => match self.phase {
                RoundPhase::RegisteringOutputs => {
                    self.phase = RoundPhase::AwaitingRoundSigning;
                    RoundAction::Ping
                },
                _ => self.fail(),
            },
            SessionEvent::RoundSigning { tree } => match self.phase {
                RoundPhase::AwaitingRoundSigning => {
                    self.phase = RoundPhase::GeneratingNonces;
                    self.tree = tree;
                    RoundAction::GenerateNonces
                },
                _ => self.fail(),
            },
            SessionEvent::NoncesGenerated { tree } => match self.phase {
                RoundPhase::GeneratingNonces => {
                    if same_shape(&tree, &self.tree) {
                        self.phase = RoundPhase::AwaitingNoncesAggregated;
                        RoundAction::SubmitNonces
                    } else {
                        self.fail()
                    }
                },
                _ => self.fail(),
            },
            SessionEvent::RoundSigningNoncesGenerated { tree } => match self.phase {
                RoundPhase::AwaitingNoncesAggregated => {
                    if same_shape(&tree, &self.tree) {
                        self.phase = RoundPhase::SigningTree;
                        RoundAction::SignTree
                    } else {
                        self.fail()
                    }
                },
                _ => self.fail(),
            },
            SessionEvent::TreeSigned { tree } => match self.phase {
                RoundPhase::SigningTree => {
                    if same_shape(&tree, &self.tree) {
                        self.phase = RoundPhase::AwaitingFinalization;
                        RoundAction::SubmitSignatures
                    } else {
                        self.fail()
                    }
                },
                _ => self.fail(),
            },
            SessionEvent::RoundFinalized { round_txid } => match self.phase {
                RoundPhase::AwaitingFinalization => {
                    self.phase = RoundPhase::Finalized;
                    RoundAction::Finish { round_txid }
                },
                _ => self.fail(),
            },
            SessionEvent::Unexpected => self.fail(),
        }
    }

    fn fail(&mut self) -> (action: RoundAction)
        ensures
            final(self).phase == RoundPhase::Failed,
            final(self).tree@ == old(self).tree@,
            action == (RoundAction::Abort { error: WalletError::ProtocolViolation }),
    {
        self.phase = RoundPhase::Failed;
        RoundAction::Abort { error: WalletError::ProtocolViolation }
    }
}

/// The phase after feeding `evs` in order, starting from `p` with tree shape `tree`.
pub open spec fn run(p: RoundPhase, tree: Seq<usize>, evs: Seq<SessionEvent>) -> RoundPhase
    decreases evs.len(),
{
    if evs.len() == 0 {
        p
    } else {
        let (next_p, next_t, _) = step_spec(p, tree, evs[0]);
        run(next_p, next_t, evs.drop_first())
    }
}

/// The phase of a successful round after `j` events.
pub open spec fn stage(j: int) -> RoundPhase {
    if j <= 0 {
        RoundPhase::Idle
    } else if j == 1 {
        RoundPhase::RegisteringInputs
    } else if j == 2 {
        RoundPhase::RegisteringOutputs
    } else if j == 3 {
        RoundPhase::AwaitingRoundSigning
    } else if j == 4 {
        RoundPhase::GeneratingNonces
    } else if j == 5 {
        RoundPhase::AwaitingNoncesAggregated
    } else if j == 6 {
        RoundPhase::SigningTree
    } else if j == 7 {
        RoundPhase::AwaitingFinalization
    } else {
        RoundPhase::Finalized
    }
}

/// The kind of the event that a successful round takes as its `j`-th.
pub open spec fn expected_at(j: int) -> EventKind {
    if j <= 0 {
        EventKind::Start
    } else if j == 1 {
        EventKind::InputsRegistered
    } else if j == 2 {
        EventKind::OutputsRegistered
    } else if j == 3 {
        EventKind::RoundSigning
    } else if j == 4 {
        EventKind::NoncesGenerated
    } else if j == 5 {
        EventKind::RoundSigningNoncesGenerated
    } else if j == 6 {
        EventKind::TreeSigned
    } else {
        EventKind::RoundFinalized
    }
}

/// Number of events in a successful round.
pub open spec fn round_len() -> int {
    8
}

proof fn lemma_terminal_stays(p: RoundPhase, tree: Seq<usize>, evs: Seq<SessionEvent>)
    requires
        is_terminal(p),
    ensures
        run(p, tree, evs) == p,
    decreases evs.len(),
{
    if evs.len() > 0 {
        lemma_terminal_stays(p, tree, evs.drop_first());
    }
}

proof fn lemma_run_from_stage(j: int, tree: Seq<usize>, evs: Seq<SessionEvent>)
    requires
        0 <= j < round_len(),
    ensures
        run(stage(j), tree, evs) is Finalized ==> evs.len() >= round_len() - j && forall|i: int|
            0 <= i < round_len() - j ==> event_kind(#[trigger] evs[i]) == expected_at(j + i),
        forall|i: int|
            0 <= i < evs.len() && i < round_len() - j && event_kind(#[trigger] evs[i])
                != expected_at(j + i) ==> run(stage(j), tree, evs) is Failed,
    decreases evs.len(),
{
    if evs.len() > 0 {
        let (next_p, next_t, _) = step_spec(stage(j), tree, evs[0]);
        let rest = evs.drop_first();
        if event_kind(evs[0]) != expected_at(j) {
            assert(next_p is Failed);
            lemma_terminal_stays(next_p, next_t, rest);
        } else if next_p is Failed {
            lemma_terminal_stays(next_p, next_t, rest);
        } else if j + 1 == round_len() {
            assert(next_p == stage(j + 1));
            lemma_terminal_stays(next_p, next_t, rest);
        } else {
            assert(next_p == stage(j + 1));
            lemma_run_from_stage(j + 1, next_t, rest);
            assert forall|i: int|
                0 < i < evs.len() && i < round_len() - j && event_kind(#[trigger] evs[i])
                    != expected_at(j + i) implies run(stage(j), tree, evs) is Failed by {
                assert(rest[i - 1] == evs[i]);
            }
            if run(stage(j), tree, evs) is Finalized {
                assert forall|i: int| 0 <= i < round_len() - j implies event_kind(
                    #[trigger] evs[i],
                ) == expected_at(j + i) by {
                    if i > 0 {
                        assert(rest[i - 1] == evs[i]);
                    }
                }
            }
        }
    }
}

/// A round ends in `Finalized` only when its events came in exactly the
/// order of a successful round (start, inputs registered, outputs registered,
/// round signing, nonces generated, aggregated nonces, tree signed, round
/// finalized); at the first event out of that order the session is `Failed`
/// for good. In particular the coordinator's events must come as
/// `RoundSigning`, then `RoundSigningNoncesGenerated`, then `RoundFinalized`.
pub proof fn lemma_round_event_order(tree: Seq<usize>, evs: Seq<SessionEvent>)
    ensures
        run(RoundPhase::Idle, tree, evs) is Finalized ==> evs.len() >= round_len() && forall|i: int|
            0 <= i < round_len() ==> event_kind(#[trigger] evs[i]) == expected_at(i),
        forall|i: int|
            0 <= i < evs.len() && i < round_len() && event_kind(#[trigger] evs[i]) != expected_at(i)
                ==> run(RoundPhase::Idle, tree, evs) is Failed,
{
    lemma_run_from_stage(0, tree, evs);
}

/// A round transaction id is handed out only by the step that finalizes the
/// round, and never from a failed session.
pub proof fn lemma_txid_only_on_finalize(p: RoundPhase, tree: Seq<usize>, e: SessionEvent)
    ensures
        step_spec(p, tree, e).2 is Finish ==> p is AwaitingFinalization && step_spec(
            p,
            tree,
            e,
        ).0 is Finalized,
        p is Failed ==> step_spec(p, tree, e).0 is Failed && step_spec(p, tree, e).2 is Stop,
{
}

} // verus!
