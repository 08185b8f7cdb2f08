//! Waiting for ICE gathering to complete, so that the local description
//! handed to signaling carries all the candidates.
use vstd::prelude::*;
use crate::config::opt_text;
use crate::error::{ErrorKind, WebRtcError};

verus! {

/// The outcome of ICE gathering: the full local SDP, or the error.
pub type IceOutcome = Result<Seq<char>, (ErrorKind, Seq<char>)>;

/// The outside work that ICE gathering asks for next.
#[derive(Debug)]
pub enum IceStep {
    /// Read whether the peer connection's ICE gathering state is complete.
    CheckGatheringState,
    /// Register the callback that signals when the gathering state becomes complete.
    WatchGatheringState,
    /// Wait for that callback's signal.
    AwaitGatheringComplete,
    /// Read the peer connection's local description.
    ReadLocalDescription,
    /// Gathering is over, with this outcome.
    Finished(Result<String, WebRtcError>),
}

/// What the outside work of an ICE step gave back.
#[derive(Debug)]
pub enum IceReply {
    /// The gathering state was read: whether it is complete.
    GatheringState(bool),
    /// The state-change callback is registered.
    Watching,
    /// The wait ended: `true` when the callback signalled completion, `false`
    /// when the signal was cancelled.
    GatheringSignal(bool),
    /// The local description's SDP, if the connection has one.
    LocalDescription(Option<String>),
}

/// Where ICE gathering stands.
#[derive(Debug)]
pub enum IceStage {
    FirstCheck,
    Watch,
    SecondCheck,
    Await,
    /// Reading the local description; `true` once the wait for completion is over.
    Read(bool),
    Done(Result<String, WebRtcError>),
}

/// An ICE step, as text.
pub enum IceStepModel {
    CheckGatheringState,
    WatchGatheringState,
    AwaitGatheringComplete,
    ReadLocalDescription,
    Finished(IceOutcome),
}

/// An ICE reply, as text.
pub enum IceReplyModel {
    GatheringState(bool),
    Watching,
    GatheringSignal(bool),
    LocalDescription(Option<Seq<char>>),
}

/// An ICE stage, as text.
pub enum IceStageModel {
    FirstCheck,
    Watch,
    SecondCheck,
    Await,
    Read(bool),
    Done(IceOutcome),
}

/// The text of an SDP-or-error result.
pub open spec fn outcome_view(r: Result<String, WebRtcError>) -> IceOutcome {
    match r {
        Ok(s) => Ok(s@),
        Err(e) => Err(e@),
    }
}

impl View for IceStep {
    type V = IceStepModel;

    open spec fn view(&self) -> IceStepModel {
        match self {
            IceStep::CheckGatheringState => IceStepModel::CheckGatheringState,
            IceStep::WatchGatheringState => IceStepModel::WatchGatheringState,
            IceStep::AwaitGatheringComplete => IceStepModel::AwaitGatheringComplete,
            IceStep::ReadLocalDescription => IceStepModel::ReadLocalDescription,
            IceStep::Finished(r) => IceStepModel::Finished(outcome_view(*r)),
        }
    }
}

impl View for IceReply {
    type V = IceReplyModel;

    open spec fn view(&self) -> IceReplyModel {
        match self {
            IceReply::GatheringState(c) => IceReplyModel::GatheringState(*c),
            IceReply::Watching => IceReplyModel::Watching,
            IceReply::GatheringSignal(c) => IceReplyModel::GatheringSignal(*c),
            IceReply::LocalDescription(d) => IceReplyModel::LocalDescription(opt_text(*d)),
        }
    }
}

impl View for IceStage {
    type V = IceStageModel;

    open spec fn view(&self) -> IceStageModel {
        match self {
            IceStage::FirstCheck => IceStageModel::FirstCheck,
            IceStage::Watch => IceStageModel::Watch,
            IceStage::SecondCheck => IceStageModel::SecondCheck,
            IceStage::Await => IceStageModel::Await,
            IceStage::Read(after) => IceStageModel::Read(*after),
            IceStage::Done(r) => IceStageModel::Done(outcome_view(*r)),
        }
    }
}

/// The error when the connection has no local description to read.
pub open spec fn missing_description(after_wait: bool) -> (ErrorKind, Seq<char>) {
    if after_wait {
        (ErrorKind::Connection, "no local description after ICE"@)
    } else {
        (ErrorKind::Connection, "no local description"@)
    }
}

/// The step that an ICE stage asks for.
pub open spec fn ice_step(s: IceStageModel) -> IceStepModel {
    match s {
        IceStageModel::FirstCheck => IceStepModel::CheckGatheringState,
        IceStageModel::Watch => IceStepModel::WatchGatheringState,
        IceStageModel::SecondCheck => IceStepModel::CheckGatheringState,
        IceStageModel::Await => IceStepModel::AwaitGatheringComplete,
        IceStageModel::Read(_) => IceStepModel::ReadLocalDescription,
        IceStageModel::Done(r) => IceStepModel::Finished(r),
    }
}

/// Whether a reply answers the step of a stage.
pub open spec fn ice_reply_fits(s: IceStageModel, r: IceReplyModel) -> bool {
    match (s, r) {
        (IceStageModel::FirstCheck, IceReplyModel::GatheringState(_)) => true,
        (IceStageModel::Watch, IceReplyModel::Watching) => true,
        (IceStageModel::SecondCheck, IceReplyModel::GatheringState(_)) => true,
        (IceStageModel::Await, IceReplyModel::GatheringSignal(_)) => true,
        (IceStageModel::Read(_), IceReplyModel::LocalDescription(_)) => true,
        _ => false,
    }
}

/// The stage after a reply. When gathering is already complete the local
/// description is read at once; otherwise the state-change callback is
/// registered, the state is checked once more (it may have completed in
/// between), and only then is the signal awaited. A reply that does not
/// answer the stage's step changes nothing.
pub open spec fn ice_advance(s: IceStageModel, r: IceReplyModel) -> IceStageModel {
    match (s, r) {
        (IceStageModel::FirstCheck, IceReplyModel::GatheringState(complete)) => {
            if complete {
                IceStageModel::Read(false)
            } else {
                IceStageModel::Watch
            }
        },
        (IceStageModel::Watch, IceReplyModel::Watching) => IceStageModel::SecondCheck,
        (IceStageModel::SecondCheck, IceReplyModel::GatheringState(complete)) => {
            if complete {
                IceStageModel::Read(false)
            } else {
                IceStageModel::Await
            }
        },
        (IceStageModel::Await, IceReplyModel::GatheringSignal(completed)) => {
            if completed {
                IceStageModel::Read(true)
            } else {
                IceStageModel::Done(Err((ErrorKind::Connection, "ICE gathering cancelled"@)))
            }
        },
        (IceStageModel::Read(after_wait), IceReplyModel::LocalDescription(d)) => {
            match d {
                Some(sdp) => IceStageModel::Done(Ok(sdp)),
                None => IceStageModel::Done(Err(missing_description(after_wait))),
            }
        },
        _ => s,
    }
}

/// The state of waiting for ICE gathering on one peer connection.
#[derive(Debug)]
pub struct IceGathering {
    stage: IceStage,
}

impl View for IceGathering {
    type V = IceStageModel;

    closed spec fn view(&self) -> IceStageModel {
        self.stage@
    }
}

fn copy_outcome(r: &Result<String, WebRtcError>) -> (c: Result<String, WebRtcError>)
    ensures
        outcome_view(c) == outcome_view(*r),
{
    match r {
        Ok(s) => Ok(s.clone()),
        Err(e) => Err(e.duplicate()),
    }
}

impl IceGathering {
    /// Gathering starts by checking whether it is already complete.
    pub fn new() -> (g: IceGathering)
        ensures
            g@ == IceStageModel::FirstCheck,
    {
        IceGathering { stage: IceStage::FirstCheck }
    }

    /// The outside work to do next.
    pub fn step(&self) -> (s: IceStep)
        ensures
            s@ == ice_step(self@),
    {
        match &self.stage {
            IceStage::FirstCheck => IceStep::CheckGatheringState,
            IceStage::Watch => IceStep::WatchGatheringState,
            IceStage::SecondCheck => IceStep::CheckGatheringState,
            IceStage::Await => IceStep::AwaitGatheringComplete,
            IceStage::Read(_) => IceStep::ReadLocalDescription,
            IceStage::Done(r) => IceStep::Finished(copy_outcome(r)),
        }
    }

    /// Whether gathering is over.
    pub fn is_finished(&self) -> (b: bool)
        ensures
            b == (self@ is Done),
    {
        match &self.stage {
            IceStage::Done(_) => true,
            _ => false,
        }
    }

    /// Takes in what the outside work of the current step gave back.
    pub fn advance(&mut self, reply: IceReply)
        ensures
            final(self)@ == ice_advance(old(self)@, reply@),
    {
        let mut stage = IceStage::FirstCheck;
        std::mem::swap(&mut stage, &mut self.stage);
        let next = match (stage, reply) {
            (IceStage::FirstCheck, IceReply::GatheringState(complete)) => {
                if complete {
                    IceStage::Read(false)
                } else {
                    IceStage::Watch
                }
            },
            (IceStage::Watch, IceReply::Watching) => IceStage::SecondCheck,
            (IceStage::SecondCheck, IceReply::GatheringState(complete)) => {
                if complete {
                    IceStage::Read(false)
                } else {
                    IceStage::Await
                }
            },
            (IceStage::Await, IceReply::GatheringSignal(completed)) => {
                if completed {
                    IceStage::Read(true)
                } else {
                    IceStage::Done(Err(WebRtcError::connection("ICE gathering cancelled")))
                }
            },
            (IceStage::Read(after_wait), IceReply::LocalDescription(d)) => {
                match d {
                    Some(sdp) => IceStage::Done(Ok(sdp)),
                    None => {
                        if after_wait {
                            IceStage::Done(Err(WebRtcError::connection("no local description after ICE")))
                        } else {
                            IceStage::Done(Err(WebRtcError::connection("no local description")))
                        }
                    },
                }
            },
            (stage, _) => stage,
        };
        self.stage = next;
    }
}

/// The stage reached from `s` by taking in the replies `rs` in order.
pub open spec fn ice_run(s: IceStageModel, rs: Seq<IceReplyModel>) -> IceStageModel
    decreases rs.len(),
{
    if rs.len() == 0 {
        s
    } else {
        ice_run(ice_advance(s, rs[0]), rs.drop_first())
    }
}

/// Whether each reply of `rs` answers the step asked for when it comes in.
pub open spec fn ice_fitting_run(s: IceStageModel, rs: Seq<IceReplyModel>) -> bool
    decreases rs.len(),
{
    rs.len() == 0 || (ice_reply_fits(s, rs[0]) && ice_fitting_run(ice_advance(s, rs[0]), rs.drop_first()))
}

/// The steps asked for from `s` on, while taking in the replies `rs`.
pub open spec fn ice_steps_taken(s: IceStageModel, rs: Seq<IceReplyModel>) -> Seq<IceStepModel>
    decreases rs.len(),
{
    if rs.len() == 0 {
        seq![ice_step(s)]
    } else {
        seq![ice_step(s)] + ice_steps_taken(ice_advance(s, rs[0]), rs.drop_first())
    }
}

/// When gathering is already complete at the first check, the local
/// description is read at once and is the outcome.
pub proof fn ice_complete_at_once(sdp: Seq<char>)
    ensures
        ({
            let rs = seq![IceReplyModel::GatheringState(true), IceReplyModel::LocalDescription(Some(sdp))];
            &&& ice_fitting_run(IceStageModel::FirstCheck, rs)
            &&& ice_run(IceStageModel::FirstCheck, rs) == IceStageModel::Done(Ok(sdp))
            &&& ice_steps_taken(IceStageModel::FirstCheck, rs) == seq![
                IceStepModel::CheckGatheringState,
                IceStepModel::ReadLocalDescription,
                IceStepModel::Finished(Ok(sdp)),
            ]
        }),
{
    let rs = seq![IceReplyModel::GatheringState(true), IceReplyModel::LocalDescription(Some(sdp))];
    reveal_with_fuel(ice_run, 3);
    reveal_with_fuel(ice_fitting_run, 3);
    reveal_with_fuel(ice_steps_taken, 3);
    assert(rs.drop_first() =~= seq![IceReplyModel::LocalDescription(Some(sdp))]);
    assert(rs.drop_first().drop_first() =~= Seq::<IceReplyModel>::empty());
    assert(ice_steps_taken(IceStageModel::FirstCheck, rs) =~= seq![
        IceStepModel::CheckGatheringState,
        IceStepModel::ReadLocalDescription,
        IceStepModel::Finished(Ok(sdp)),
    ]);
}

/// When gathering is still running, the state-change callback is registered
/// and the state checked again before the completion signal is awaited; the
/// local description read after it is the outcome.
pub proof fn ice_complete_after_wait(sdp: Seq<char>)
    ensures
        ({
            let rs = seq![
                IceReplyModel::GatheringState(false),
                IceReplyModel::Watching,
                IceReplyModel::GatheringState(false),
                IceReplyModel::GatheringSignal(true),
                IceReplyModel::LocalDescription(Some(sdp)),
            ];
            &&& ice_fitting_run(IceStageModel::FirstCheck, rs)
            &&& ice_run(IceStageModel::FirstCheck, rs) == IceStageModel::Done(Ok(sdp))
            &&& ice_steps_taken(IceStageModel::FirstCheck, rs) == seq![
                IceStepModel::CheckGatheringState,
                IceStepModel::WatchGatheringState,
                IceStepModel::CheckGatheringState,
                IceStepModel::AwaitGatheringComplete,
                IceStepModel::ReadLocalDescription,
                IceStepModel::Finished(Ok(sdp)),
            ]
        }),
{
    let rs = seq![
        IceReplyModel::GatheringState(false),
        IceReplyModel::Watching,
        IceReplyModel::GatheringState(false),
        IceReplyModel::GatheringSignal(true),
        IceReplyModel::LocalDescription(Some(sdp)),
    ];
    reveal_with_fuel(ice_run, 6);
    reveal_with_fuel(ice_fitting_run, 6);
    reveal_with_fuel(ice_steps_taken, 6);
    assert(rs.drop_first() =~= rs.subrange(1, 5));
    assert(rs.subrange(1, 5).drop_first() =~= rs.subrange(2, 5));
    assert(rs.subrange(2, 5).drop_first() =~= rs.subrange(3, 5));
    assert(rs.subrange(3, 5).drop_first() =~= rs.subrange(4, 5));
    assert(rs.subrange(4, 5).drop_first() =~= Seq::<IceReplyModel>::empty());
    assert(ice_steps_taken(IceStageModel::FirstCheck, rs) =~= seq![
        IceStepModel::CheckGatheringState,
        IceStepModel::WatchGatheringState,
        IceStepModel::CheckGatheringState,
        IceStepModel::AwaitGatheringComplete,
        IceStepModel::ReadLocalDescription,
        IceStepModel::Finished(Ok(sdp)),
    ]);
}

/// Once gathering is over, no reply changes it.
pub proof fn finished_ice_stays(r: IceOutcome, rs: Seq<IceReplyModel>)
    ensures
        ice_run(IceStageModel::Done(r), rs) == IceStageModel::Done(r),
        ice_fitting_run(IceStageModel::Done(r), rs) ==> rs.len() == 0,
    decreases rs.len(),
{
    if rs.len() > 0 {
        finished_ice_stays(r, rs.drop_first());
    }
}

/// A fitting run that ends with an SDP, from a stage that is not over,
/// takes in a first reply that answers the stage and does not end it
/// unless that reply is the one that ends the run.
proof fn sdp_run_first_reply(s: IceStageModel, rs: Seq<IceReplyModel>, sdp: Seq<char>)
    requires
        ice_fitting_run(s, rs),
        ice_run(s, rs) == IceStageModel::Done(Ok(sdp)),
        !(s is Done),
    ensures
        rs.len() > 0,
        ice_reply_fits(s, rs[0]),
        ice_fitting_run(ice_advance(s, rs[0]), rs.drop_first()),
        ice_run(ice_advance(s, rs[0]), rs.drop_first()) == IceStageModel::Done(Ok(sdp)),
        ice_advance(s, rs[0]) is Done ==> rs.len() == 1 && ice_advance(s, rs[0])
            == IceStageModel::Done(Ok(sdp)),
{
    if rs.len() > 0 {
        let next = ice_advance(s, rs[0]);
        if next is Done {
            finished_ice_stays(next->Done_0, rs.drop_first());
        }
    }
}

/// ICE gathering gives an SDP only as the local description read after the
/// gathering state was seen complete (at a check, or by the completion
/// signal), so that SDP carries all candidates.
pub proof fn ice_sdp_read_after_completion(rs: Seq<IceReplyModel>, sdp: Seq<char>)
    requires
        ice_fitting_run(IceStageModel::FirstCheck, rs),
        ice_run(IceStageModel::FirstCheck, rs) == IceStageModel::Done(Ok(sdp)),
    ensures
        rs.len() >= 2,
        rs.last() == IceReplyModel::LocalDescription(Some(sdp)),
        rs[rs.len() - 2] == IceReplyModel::GatheringState(true) || rs[rs.len() - 2]
            == IceReplyModel::GatheringSignal(true),
{
    let s0 = IceStageModel::FirstCheck;
    sdp_run_first_reply(s0, rs, sdp);
    let r1 = rs.drop_first();
    let s1 = ice_advance(s0, rs[0]);
    sdp_run_first_reply(s1, r1, sdp);
    let r2 = r1.drop_first();
    let s2 = ice_advance(s1, r1[0]);
    assert(rs[1] == r1[0]);
    if s1 is Read {
        assert(rs.len() == 2);
    } else {
        assert(s2 == IceStageModel::SecondCheck);
        sdp_run_first_reply(s2, r2, sdp);
        let r3 = r2.drop_first();
        let s3 = ice_advance(s2, r2[0]);
        sdp_run_first_reply(s3, r3, sdp);
        assert(rs[2] == r2[0] && rs[3] == r3[0]);
        if s3 is Read {
            assert(rs.len() == 4);
        } else {
            let r4 = r3.drop_first();
            let s4 = ice_advance(s3, r3[0]);
            assert(s4 == IceStageModel::Read(true));
            sdp_run_first_reply(s4, r4, sdp);
            assert(rs[4] == r4[0]);
            assert(rs.len() == 5);
        }
    }
}

/// How many more replies an ICE stage can take in at most before gathering
/// is over.
pub open spec fn ice_replies_left(s: IceStageModel) -> nat {
    match s {
        IceStageModel::FirstCheck => 5,
        IceStageModel::Watch => 4,
        IceStageModel::SecondCheck => 3,
        IceStageModel::Await => 2,
        IceStageModel::Read(_) => 1,
        IceStageModel::Done(_) => 0,
    }
}

/// Every reply that answers a step brings gathering closer to its end: only
/// a finished stage has no replies left, and a fitting run is at most as
/// long as the count, so gathering is over within 5 replies.
pub proof fn ice_gathering_ends(s: IceStageModel, rs: Seq<IceReplyModel>)
    requires
        ice_fitting_run(s, rs),
    ensures
        (ice_replies_left(s) == 0) == (s is Done),
        rs.len() <= ice_replies_left(s),
    decreases rs.len(),
{
    if rs.len() > 0 {
        ice_gathering_ends(ice_advance(s, rs[0]), rs.drop_first());
    }
}

} // verus!
