//! The decisions that move an IO entity through its link states: starting a
//! connection attempt, settling a pending attempt, and ending a link.
use vstd::prelude::*;
use crate::config::{opt_text, IceConfig};
use crate::error::{error_message, ErrorKind};

verus! {

/// What a link request does to an IO entity.
#[derive(Debug)]
pub enum LinkStart<S> {
    /// The entity is already linking or linked: the request is ignored.
    Ignored,
    /// The entity's signaling was used by an earlier attempt: nothing starts.
    SignalingConsumed,
    /// A connection attempt starts with this configuration and signaling.
    Begin { ice_config: IceConfig, signaling: S },
}

/// Whether a link request can start an attempt on an entity in this state.
pub open spec fn may_start(linking: bool, linked: bool) -> bool {
    !linking && !linked
}

/// The signaling slot after a link request: a started attempt takes the
/// signaling out of it; otherwise it is left as it was.
pub open spec fn slot_after_start<S>(linking: bool, linked: bool, slot: Option<S>) -> Option<S> {
    if may_start(linking, linked) {
        None
    } else {
        slot
    }
}

/// Handles a link request on an IO entity. An entity that is already linking
/// or linked ignores it. Otherwise the signaling is taken out of its slot and
/// the attempt begins with a copy of the configuration; when the slot is
/// already empty, the signaling was consumed by an earlier attempt.
pub fn start_link<S>(
    linking: bool,
    linked: bool,
    ice_config: &IceConfig,
    signaling: &mut Option<S>,
) -> (r: LinkStart<S>)
    ensures
        *final(signaling) == slot_after_start(linking, linked, *old(signaling)),
        !may_start(linking, linked) ==> r is Ignored,
        may_start(linking, linked) && *old(signaling) is None ==> r is SignalingConsumed,
        may_start(linking, linked) && *old(signaling) is Some ==> (r matches LinkStart::Begin {
            ice_config: c,
            signaling: s,
        } && c@ == ice_config@ && s == old(signaling)->0),
{
    if linking || linked {
        return LinkStart::Ignored;
    }
    match signaling.take() {
        Some(s) => LinkStart::Begin { ice_config: ice_config.duplicate(), signaling: s },
        None => LinkStart::SignalingConsumed,
    }
}

/// Where a pending connection attempt stands.
#[derive(Debug)]
pub enum PendingOutcome {
    /// Neither an error nor a connection has been deposited yet.
    Waiting,
    /// The attempt failed: the entity is unlinked with this reason.
    Failed(String),
    /// The connection is established: the entity becomes linked.
    Established,
}

/// A pending outcome, as text.
pub enum PendingOutcomeModel {
    Waiting,
    Failed(Seq<char>),
    Established,
}

impl View for PendingOutcome {
    type V = PendingOutcomeModel;

    open spec fn view(&self) -> PendingOutcomeModel {
        match self {
            PendingOutcome::Waiting => PendingOutcomeModel::Waiting,
            PendingOutcome::Failed(r) => PendingOutcomeModel::Failed(r@),
            PendingOutcome::Established => PendingOutcomeModel::Established,
        }
    }
}

/// How a pending attempt settles: a deposited error is looked at first and
/// unlinks the entity; otherwise a deposited connection links it.
pub open spec fn pending_outcome(error: Option<Seq<char>>, result_ready: bool) -> PendingOutcomeModel {
    match error {
        Some(reason) => PendingOutcomeModel::Failed(reason),
        None => if result_ready {
            PendingOutcomeModel::Established
        } else {
            PendingOutcomeModel::Waiting
        },
    }
}

/// Settles a pending attempt from what the setup task has deposited: the
/// error text, if any, and whether the connection's channels are ready.
pub fn resolve_pending(error: Option<String>, result_ready: bool) -> (o: PendingOutcome)
    ensures
        o@ == pending_outcome(opt_text(error), result_ready),
{
    match error {
        Some(reason) => PendingOutcome::Failed(reason),
        None => if result_ready {
            PendingOutcome::Established
        } else {
            PendingOutcome::Waiting
        },
    }
}

/// An IO entity's signaling serves at most one connection attempt: once an
/// attempt has begun, the slot is empty, so every later request that could
/// start one finds the signaling consumed; a request that is ignored leaves
/// the slot as it was.
pub proof fn signaling_serves_one_attempt<S>(
    slot: Option<S>,
    linking: bool,
    linked: bool,
    later_linking: bool,
    later_linked: bool,
)
    ensures
        may_start(linking, linked) ==> slot_after_start(linking, linked, slot) is None,
        may_start(linking, linked) ==> slot_after_start(
            later_linking,
            later_linked,
            slot_after_start(linking, linked, slot),
        ) is None,
        !may_start(linking, linked) ==> slot_after_start(linking, linked, slot) == slot,
{
}

/// A connection attempt that fails unlinks the entity with the error's
/// message, whether or not a connection was also deposited.
pub proof fn failed_attempt_unlinks_with_message(e: (ErrorKind, Seq<char>), result_ready: bool)
    ensures
        pending_outcome(Some(error_message(e)), result_ready) == PendingOutcomeModel::Failed(
            error_message(e),
        ),
{
}

} // verus!
