//! The life of one remote file session.
//!
//! Every operation opens its own session, uses it once, and tears it down:
//! nothing is pooled or reused. Establishing the session goes through a fixed
//! sequence of stages (raw stream, protocol session, handshake,
//! authentication, transfer channel); a transfer then opens its source,
//! creates its destination, and pumps bytes. The machines here decide, from
//! the current phase and the outcome of the last outside call, what happens
//! next; an unverified driver performs each directed call and feeds its
//! outcome back. Any failure closes the session at once, charged to the step
//! it arose at, and nothing further is ever directed.

use vstd::prelude::*;
use crate::error::{ErrModel, OpError, Step};

verus! {

/// The stages of establishing a session, in the order they are performed.
#[derive(Clone, Copy, Debug, PartialEq, Eq, Structural)]
pub enum ConnectStage {
    /// open the raw network stream to host:port
    Tcp,
    /// construct the protocol session over the stream
    SessionInit,
    /// perform the protocol handshake
    Handshake,
    /// authenticate with username and password
    Auth,
    /// open the file-transfer sub-channel
    Channel,
}

/// How far a session has come.
pub enum SessionPhase {
    /// nothing opened yet
    Unconnected,
    /// the raw stream is open
    StreamUp,
    /// the protocol session is constructed over the stream
    SessionUp,
    /// the handshake is complete
    Connected,
    /// username and password were accepted
    Authenticated,
    /// the transfer channel is open: the session is ready for its one operation
    ChannelOpen,
    /// torn down, with the error that closed it, if any
    Closed(Option<OpError>),
}

/// The mathematical value of a [`SessionPhase`].
pub enum PhaseModel {
    Unconnected,
    StreamUp,
    SessionUp,
    Connected,
    Authenticated,
    ChannelOpen,
    Closed(Option<ErrModel>),
}

impl View for SessionPhase {
    type V = PhaseModel;

    open spec fn view(&self) -> PhaseModel {
        match self {
            SessionPhase::Unconnected => PhaseModel::Unconnected,
            SessionPhase::StreamUp => PhaseModel::StreamUp,
            SessionPhase::SessionUp => PhaseModel::SessionUp,
            SessionPhase::Connected => PhaseModel::Connected,
            SessionPhase::Authenticated => PhaseModel::Authenticated,
            SessionPhase::ChannelOpen => PhaseModel::ChannelOpen,
            SessionPhase::Closed(e) => PhaseModel::Closed(
                match e {
                    Option::Some(err) => Option::Some(err@),
                    Option::None => Option::None,
                },
            ),
        }
    }
}

/// The outcome of one stage's outside call: it succeeded, or it failed with
/// the cause the failing call reported.
pub enum StageOutcome {
    Success,
    Failure(String),
}

impl View for StageOutcome {
    /// `None` for success, the cause's characters for a failure.
    type V = Option<Seq<char>>;

    open spec fn view(&self) -> Option<Seq<char>> {
        match self {
            StageOutcome::Success => Option::None,
            StageOutcome::Failure(cause) => Option::Some(cause@),
        }
    }
}

/// The connect stage a phase is waiting on, or `None` when the session is
/// ready or torn down and no further connect call may be made.
pub open spec fn awaited_stage(p: PhaseModel) -> Option<ConnectStage> {
    match p {
        PhaseModel::Unconnected => Option::Some(ConnectStage::Tcp),
        PhaseModel::StreamUp => Option::Some(ConnectStage::SessionInit),
        PhaseModel::SessionUp => Option::Some(ConnectStage::Handshake),
        PhaseModel::Connected => Option::Some(ConnectStage::Auth),
        PhaseModel::Authenticated => Option::Some(ConnectStage::Channel),
        PhaseModel::ChannelOpen => Option::None,
        PhaseModel::Closed(_) => Option::None,
    }
}

/// The step a failure at each connect stage is charged to.
pub open spec fn stage_step(s: ConnectStage) -> Step {
    match s {
        ConnectStage::Tcp => Step::Connect,
        ConnectStage::SessionInit => Step::SessionInit,
        ConnectStage::Handshake => Step::Handshake,
        ConnectStage::Auth => Step::Auth,
        ConnectStage::Channel => Step::Channel,
    }
}

/// The phase reached when a connect stage succeeds.
pub open spec fn stage_reached(s: ConnectStage) -> PhaseModel {
    match s {
        ConnectStage::Tcp => PhaseModel::StreamUp,
        ConnectStage::SessionInit => PhaseModel::SessionUp,
        ConnectStage::Handshake => PhaseModel::Connected,
        ConnectStage::Auth => PhaseModel::Authenticated,
        ConnectStage::Channel => PhaseModel::ChannelOpen,
    }
}

/// The phase after the awaited stage's outside call came back with `outcome`:
/// success moves one stage forward, a failure closes the session with the
/// stage's step and the reported cause. A ready or closed session awaits no
/// stage and nothing moves it.
pub open spec fn advanced(p: PhaseModel, outcome: Option<Seq<char>>) -> PhaseModel {
    match awaited_stage(p) {
        Option::Some(stage) => match outcome {
            Option::None => stage_reached(stage),
            Option::Some(cause) => PhaseModel::Closed(
                Option::Some(ErrModel { step: stage_step(stage), cause }),
            ),
        },
        Option::None => p,
    }
}

/// The connect workflow driven from scratch: the phase reached when each
/// stage that is reached yields the given outcome, in stage order. A failure
/// closes the session, and `advanced` leaves a closed session closed, so the
/// outcomes of the stages after the first failing one are never consulted.
pub open spec fn connect_run(
    tcp: Option<Seq<char>>,
    init: Option<Seq<char>>,
    handshake: Option<Seq<char>>,
    auth: Option<Seq<char>>,
    channel: Option<Seq<char>>,
) -> PhaseModel {
    advanced(
        advanced(advanced(advanced(advanced(PhaseModel::Unconnected, tcp), init), handshake), auth),
        channel,
    )
}

/// The connect stage the driver must perform next, or `None` when the
/// session is ready or torn down.
pub fn next_connect_stage(p: &SessionPhase) -> (r: Option<ConnectStage>)
    ensures
        r == awaited_stage(p@),
{
    match p {
        SessionPhase::Unconnected => Option::Some(ConnectStage::Tcp),
        SessionPhase::StreamUp => Option::Some(ConnectStage::SessionInit),
        SessionPhase::SessionUp => Option::Some(ConnectStage::Handshake),
        SessionPhase::Connected => Option::Some(ConnectStage::Auth),
        SessionPhase::Authenticated => Option::Some(ConnectStage::Channel),
        SessionPhase::ChannelOpen => Option::None,
        SessionPhase::Closed(_) => Option::None,
    }
}

/// Move the session by the outcome of the connect stage it was waiting on.
pub fn advance(p: SessionPhase, outcome: StageOutcome) -> (next: SessionPhase)
    ensures
        next@ == advanced(p@, outcome@),
{
    match next_connect_stage(&p) {
        Option::None => p,
        Option::Some(stage) => match outcome {
            StageOutcome::Success => match stage {
                ConnectStage::Tcp => SessionPhase::StreamUp,
                ConnectStage::SessionInit => SessionPhase::SessionUp,
                ConnectStage::Handshake => SessionPhase::Connected,
                ConnectStage::Auth => SessionPhase::Authenticated,
                ConnectStage::Channel => SessionPhase::ChannelOpen,
            },
            StageOutcome::Failure(cause) => {
                let step: Step = match stage {
                    ConnectStage::Tcp => Step::Connect,
                    ConnectStage::SessionInit => Step::SessionInit,
                    ConnectStage::Handshake => Step::Handshake,
                    ConnectStage::Auth => Step::Auth,
                    ConnectStage::Channel => Step::Channel,
                };
                SessionPhase::Closed(Option::Some(OpError { step, cause }))
            },
        },
    }
}

/// Invalid credentials stop everything at the authentication stage: when the
/// stages before it succeed and authentication fails, the run closes with an
/// Auth-step error carrying the reported cause — whatever the channel stage
/// would have returned — and the closed session awaits no further stage, so
/// the transfer channel is never opened and no directory or file operation is
/// ever attempted.
pub proof fn lemma_auth_failure_closes(cause: Seq<char>, channel: Option<Seq<char>>)
    ensures
        connect_run(Option::None, Option::None, Option::None, Option::Some(cause), channel)
            == PhaseModel::Closed(Option::Some(ErrModel { step: Step::Auth, cause })),
        awaited_stage(
            connect_run(Option::None, Option::None, Option::None, Option::Some(cause), channel),
        ) is None,
{
}

/// The session is ready exactly when every connect stage succeeded, and a
/// run that is not ready is closed with the step of its first failing stage.
pub proof fn lemma_run_ready_iff_all_succeed(
    tcp: Option<Seq<char>>,
    init: Option<Seq<char>>,
    handshake: Option<Seq<char>>,
    auth: Option<Seq<char>>,
    channel: Option<Seq<char>>,
)
    ensures
        connect_run(tcp, init, handshake, auth, channel) == PhaseModel::ChannelOpen <==> (tcp
            is None && init is None && handshake is None && auth is None && channel is None),
        connect_run(tcp, init, handshake, auth, channel) == PhaseModel::ChannelOpen || (
        connect_run(tcp, init, handshake, auth, channel) matches PhaseModel::Closed(Some(e))
            && e.step == (if tcp is Some {
            Step::Connect
        } else if init is Some {
            Step::SessionInit
        } else if handshake is Some {
            Step::Handshake
        } else if auth is Some {
            Step::Auth
        } else {
            Step::Channel
        })),
{
}

/// The direction of a transfer, which fixes the order of its steps and the
/// step each failure is charged to: a download opens the remote source before
/// creating the local destination, an upload opens the local source before
/// creating the remote destination.
#[derive(Clone, Copy, Debug, PartialEq, Eq, Structural)]
pub enum Direction {
    Download,
    Upload,
}

/// The calls a transfer makes once its session is ready, in order.
#[derive(Clone, Copy, Debug, PartialEq, Eq, Structural)]
pub enum TransferStage {
    /// open the source file for reading (remote for a download, local for an upload)
    OpenSource,
    /// create, truncating if present, the destination file (local for a download, remote for an upload)
    CreateDest,
    /// read the next buffer of bytes from the source
    Read,
    /// write the bytes the last read returned, in full, to the destination
    Write,
}

/// The step a failure at each transfer stage is charged to, by direction.
pub open spec fn transfer_step(d: Direction, s: TransferStage) -> Step {
    match (d, s) {
        (Direction::Download, TransferStage::OpenSource) => Step::RemoteOpen,
        (Direction::Download, TransferStage::CreateDest) => Step::LocalCreate,
        (Direction::Download, TransferStage::Read) => Step::RemoteRead,
        (Direction::Download, TransferStage::Write) => Step::LocalWrite,
        (Direction::Upload, TransferStage::OpenSource) => Step::LocalOpen,
        (Direction::Upload, TransferStage::CreateDest) => Step::RemoteCreate,
        (Direction::Upload, TransferStage::Read) => Step::LocalRead,
        (Direction::Upload, TransferStage::Write) => Step::RemoteWrite,
    }
}

/// How far one transfer has come.
pub enum TransferPhase {
    /// about to open the source; nothing has touched the destination
    OpeningSource,
    /// the source is open; about to create the destination
    CreatingDest,
    /// both files are ready; about to read from the source
    Reading,
    /// the last read returned bytes; about to write them in full
    Writing,
    /// a zero-length read ended the copy: the transfer succeeded
    Finished,
    /// the transfer failed, charged to the step it failed at
    Failed(OpError),
}

/// The mathematical value of a [`TransferPhase`].
pub enum TransferModel {
    OpeningSource,
    CreatingDest,
    Reading,
    Writing,
    Finished,
    Failed(ErrModel),
}

impl View for TransferPhase {
    type V = TransferModel;

    open spec fn view(&self) -> TransferModel {
        match self {
            TransferPhase::OpeningSource => TransferModel::OpeningSource,
            TransferPhase::CreatingDest => TransferModel::CreatingDest,
            TransferPhase::Reading => TransferModel::Reading,
            TransferPhase::Writing => TransferModel::Writing,
            TransferPhase::Finished => TransferModel::Finished,
            TransferPhase::Failed(e) => TransferModel::Failed(e@),
        }
    }
}

/// One transfer in flight: its direction and how far it has come.
pub struct Transfer {
    pub direction: Direction,
    pub phase: TransferPhase,
}

/// What happened at the transfer stage the driver just performed.
pub enum TransferEvent {
    /// the source opened
    Opened,
    /// opening the source failed
    OpenFailed(String),
    /// the destination was created
    Created,
    /// creating the destination failed
    CreateFailed(String),
    /// a read returned bytes
    ReadData,
    /// a read returned no bytes: end-of-stream
    ReadEnd,
    /// a read failed
    ReadFailed(String),
    /// the last chunk was written in full
    Wrote,
    /// a write failed
    WriteFailed(String),
}

/// The mathematical value of a [`TransferEvent`].
pub enum TransferEventModel {
    Opened,
    OpenFailed(Seq<char>),
    Created,
    CreateFailed(Seq<char>),
    ReadData,
    ReadEnd,
    ReadFailed(Seq<char>),
    Wrote,
    WriteFailed(Seq<char>),
}

impl View for TransferEvent {
    type V = TransferEventModel;

    open spec fn view(&self) -> TransferEventModel {
        match self {
            TransferEvent::Opened => TransferEventModel::Opened,
            TransferEvent::OpenFailed(c) => TransferEventModel::OpenFailed(c@),
            TransferEvent::Created => TransferEventModel::Created,
            TransferEvent::CreateFailed(c) => TransferEventModel::CreateFailed(c@),
            TransferEvent::ReadData => TransferEventModel::ReadData,
            TransferEvent::ReadEnd => TransferEventModel::ReadEnd,
            TransferEvent::ReadFailed(c) => TransferEventModel::ReadFailed(c@),
            TransferEvent::Wrote => TransferEventModel::Wrote,
            TransferEvent::WriteFailed(c) => TransferEventModel::WriteFailed(c@),
        }
    }
}

/// The transfer stage a phase is waiting on, or `None` when the transfer is
/// over and no further call on either file may be made.
pub open spec fn awaited_transfer_stage(m: TransferModel) -> Option<TransferStage> {
    match m {
        TransferModel::OpeningSource => Option::Some(TransferStage::OpenSource),
        TransferModel::CreatingDest => Option::Some(TransferStage::CreateDest),
        TransferModel::Reading => Option::Some(TransferStage::Read),
        TransferModel::Writing => Option::Some(TransferStage::Write),
        TransferModel::Finished => Option::None,
        TransferModel::Failed(_) => Option::None,
    }
}

/// A failure of the awaited stage, charged to the right step.
pub open spec fn transfer_failure(d: Direction, s: TransferStage, cause: Seq<char>) -> TransferModel {
    TransferModel::Failed(ErrModel { step: transfer_step(d, s), cause })
}

/// The phase after an event: success at each stage moves to the next stage
/// (a read moves to the write of what it returned, end-of-stream finishes,
/// a full write moves back to the next read); any failure fails the transfer
/// at its step. An event that does not belong to the awaited stage moves
/// nothing, and a finished or failed transfer is never moved again.
pub open spec fn transfer_advanced(d: Direction, m: TransferModel, e: TransferEventModel) -> TransferModel {
    match (m, e) {
        (TransferModel::OpeningSource, TransferEventModel::Opened) => TransferModel::CreatingDest,
        (TransferModel::OpeningSource, TransferEventModel::OpenFailed(c)) => transfer_failure(
            d,
            TransferStage::OpenSource,
            c,
        ),
        (TransferModel::CreatingDest, TransferEventModel::Created) => TransferModel::Reading,
        (TransferModel::CreatingDest, TransferEventModel::CreateFailed(c)) => transfer_failure(
            d,
            TransferStage::CreateDest,
            c,
        ),
        (TransferModel::Reading, TransferEventModel::ReadData) => TransferModel::Writing,
        (TransferModel::Reading, TransferEventModel::ReadEnd) => TransferModel::Finished,
        (TransferModel::Reading, TransferEventModel::ReadFailed(c)) => transfer_failure(
            d,
            TransferStage::Read,
            c,
        ),
        (TransferModel::Writing, TransferEventModel::Wrote) => TransferModel::Reading,
        (TransferModel::Writing, TransferEventModel::WriteFailed(c)) => transfer_failure(
            d,
            TransferStage::Write,
            c,
        ),
        (_, _) => m,
    }
}

impl Transfer {
    /// A fresh transfer in the given direction, about to open its source;
    /// neither file has been touched.
    pub fn start(direction: Direction) -> (t: Transfer)
        ensures
            t.direction == direction,
            t.phase@ == TransferModel::OpeningSource,
    {
        Transfer { direction, phase: TransferPhase::OpeningSource }
    }

    /// The transfer stage the driver must perform next, or `None` when the
    /// transfer is over.
    pub fn next_stage(&self) -> (r: Option<TransferStage>)
        ensures
            r == awaited_transfer_stage(self.phase@),
    {
        match &self.phase {
            TransferPhase::OpeningSource => Option::Some(TransferStage::OpenSource),
            TransferPhase::CreatingDest => Option::Some(TransferStage::CreateDest),
            TransferPhase::Reading => Option::Some(TransferStage::Read),
            TransferPhase::Writing => Option::Some(TransferStage::Write),
            TransferPhase::Finished => Option::None,
            TransferPhase::Failed(_) => Option::None,
        }
    }

    /// Move the transfer by what happened at the stage it was waiting on.
    pub fn advance(self, event: TransferEvent) -> (next: Transfer)
        ensures
            next.direction == self.direction,
            next.phase@ == transfer_advanced(self.direction, self.phase@, event@),
    {
        let direction = self.direction;
        let phase = match (self.phase, event) {
            (TransferPhase::OpeningSource, TransferEvent::Opened) => TransferPhase::CreatingDest,
            (TransferPhase::OpeningSource, TransferEvent::OpenFailed(c)) => TransferPhase::Failed(
                OpError { step: step_for(direction, TransferStage::OpenSource), cause: c },
            ),
            (TransferPhase::CreatingDest, TransferEvent::Created) => TransferPhase::Reading,
            (TransferPhase::CreatingDest, TransferEvent::CreateFailed(c)) => TransferPhase::Failed(
                OpError { step: step_for(direction, TransferStage::CreateDest), cause: c },
            ),
            (TransferPhase::Reading, TransferEvent::ReadData) => TransferPhase::Writing,
            (TransferPhase::Reading, TransferEvent::ReadEnd) => TransferPhase::Finished,
            (TransferPhase::Reading, TransferEvent::ReadFailed(c)) => TransferPhase::Failed(
                OpError { step: step_for(direction, TransferStage::Read), cause: c },
            ),
            (TransferPhase::Writing, TransferEvent::Wrote) => TransferPhase::Reading,
            (TransferPhase::Writing, TransferEvent::WriteFailed(c)) => TransferPhase::Failed(
                OpError { step: step_for(direction, TransferStage::Write), cause: c },
            ),
            (phase, _) => phase,
        };
        Transfer { direction, phase }
    }
}

/// The step a failure at a transfer stage is charged to, by direction.
pub fn step_for(d: Direction, s: TransferStage) -> (r: Step)
    ensures
        r == transfer_step(d, s),
{
    match (d, s) {
        (Direction::Download, TransferStage::OpenSource) => Step::RemoteOpen,
        (Direction::Download, TransferStage::CreateDest) => Step::LocalCreate,
        (Direction::Download, TransferStage::Read) => Step::RemoteRead,
        (Direction::Download, TransferStage::Write) => Step::LocalWrite,
        (Direction::Upload, TransferStage::OpenSource) => Step::LocalOpen,
        (Direction::Upload, TransferStage::CreateDest) => Step::RemoteCreate,
        (Direction::Upload, TransferStage::Read) => Step::LocalRead,
        (Direction::Upload, TransferStage::Write) => Step::RemoteWrite,
    }
}

/// A missing source fails before the destination exists. The source is opened
/// first: when that open fails, the transfer fails at once — charged to the
/// Remote-open step for a download, the Local-open step for an upload — and
/// the closed transfer awaits no further stage, so the destination file is
/// never created. In particular a download of a missing remote path fails
/// before any local file exists, and an upload of a missing local path fails
/// before any remote file exists.
pub proof fn lemma_missing_source_fails_first(cause: Seq<char>)
    ensures
        transfer_advanced(
            Direction::Download,
            TransferModel::OpeningSource,
            TransferEventModel::OpenFailed(cause),
        ) == TransferModel::Failed(ErrModel { step: Step::RemoteOpen, cause }),
        transfer_advanced(
            Direction::Upload,
            TransferModel::OpeningSource,
            TransferEventModel::OpenFailed(cause),
        ) == TransferModel::Failed(ErrModel { step: Step::LocalOpen, cause }),
        forall|d: Direction, c: Seq<char>|
            awaited_transfer_stage(
                transfer_advanced(
                    d,
                    TransferModel::OpeningSource,
                    TransferEventModel::OpenFailed(c),
                ),
            ) is None,
        awaited_transfer_stage(TransferModel::OpeningSource) == Option::Some(
            TransferStage::OpenSource,
        ),
{
}

} // verus!
