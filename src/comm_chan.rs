//! Comm channel endpoints: the connection set-up state machine for both
//! roles, and the retry policy of sends and receives.
//!
//! The native endpoint is driven from outside: the caller asks
//! [`CommChannel::pending_call`] which native call is due, makes it, and
//! hands its status to [`CommChannel::on_setup_status`], which says whether to
//! go on at once, wait and repeat the call, or stop.

use vstd::prelude::*;
use crate::status::{DocaStatus, DOCAResult};
use crate::mmap::MemRegion;

verus! {

/// Largest message, in bytes, that an endpoint accepts.
pub const MAX_MSG_SIZE: usize = 4080;

/// Depth of the send queue and of the receive queue.
pub const QUEUE_SIZE: u32 = 10;

/// Bytes of the rendezvous probe that a client sends and a server awaits.
pub const PROBE_LEN: usize = 2;

/// Milliseconds to wait before repeating a call that asked to be retried.
pub const RETRY_DELAY_MS: u64 = 1;

/// Which side of the rendezvous an endpoint takes.
#[derive(Debug, Clone, Copy, PartialEq, Eq, Structural)]
pub enum Role {
    /// Listens under a name and serves one device representor.
    Server,
    /// Connects to a server's name.
    Client,
}

/// A native call on the endpoint during set-up.
#[derive(Debug, Clone, Copy, PartialEq, Eq, Structural)]
pub enum ChannelCall {
    Create,
    SetDevice,
    SetMaxMsgSize(usize),
    SetSendQueueSize(u32),
    SetRecvQueueSize(u32),
    SetDeviceRep,
    Listen,
    Connect,
    /// Receive the rendezvous probe, `len` bytes at most, and learn the peer.
    RecvProbe(usize),
    PeerAddrUpdate,
    /// Send a rendezvous probe of `len` bytes to the peer.
    SendProbe(usize),
}

/// Where an endpoint stands in its set-up.
#[derive(Debug, Clone, Copy, PartialEq, Eq, Structural)]
pub enum SetupStage {
    /// The configuration call at this position of the role's sequence is due.
    Configuring(usize),
    /// A server waits for the client's probe.
    AwaitingProbe,
    /// A client waits for the peer address to resolve.
    AwaitingPeer,
    /// A client sends its probe.
    SendingProbe,
    Connected,
    Failed(DocaStatus),
}

/// What to do after a native call.
#[derive(Debug, Clone, Copy, PartialEq, Eq, Structural)]
pub enum SetupAction {
    /// Make the call that is now pending, at once.
    Proceed,
    /// Wait this many milliseconds, then repeat the same call.
    RetryAfterMs(u64),
    /// The endpoint is connected; nothing more is due.
    Connected,
    /// Set-up failed with this status; the endpoint is unusable.
    Fatal(DocaStatus),
}

/// What to do after one attempt of a blocking send or receive.
#[derive(Debug, Clone, Copy, PartialEq, Eq, Structural)]
pub enum Poll {
    Done,
    RetryAfterMs(u64),
    Fatal(DocaStatus),
}

/// The configuration calls of a role, in the order they are made.
pub open spec fn config_calls(role: Role) -> Seq<ChannelCall> {
    let common = seq![
        ChannelCall::Create,
        ChannelCall::SetDevice,
        ChannelCall::SetMaxMsgSize(MAX_MSG_SIZE),
        ChannelCall::SetSendQueueSize(QUEUE_SIZE),
        ChannelCall::SetRecvQueueSize(QUEUE_SIZE),
    ];
    match role {
        Role::Server => common + seq![ChannelCall::SetDeviceRep, ChannelCall::Listen],
        Role::Client => common + seq![ChannelCall::Connect],
    }
}

/// The stage that follows the last configuration call of a role.
pub open spec fn handshake_stage(role: Role) -> SetupStage {
    match role {
        Role::Server => SetupStage::AwaitingProbe,
        Role::Client => SetupStage::AwaitingPeer,
    }
}

/// The blocking retry policy: success ends, the transient code waits and
/// repeats, anything else is fatal.
pub open spec fn poll_of(status: DocaStatus) -> Poll {
    if status == DocaStatus::Success {
        Poll::Done
    } else if status == DocaStatus::Again {
        Poll::RetryAfterMs(RETRY_DELAY_MS)
    } else {
        Poll::Fatal(status)
    }
}

/// The state of an endpoint as the library tracks it.
pub struct ChannelView {
    pub role: Role,
    pub stage: SetupStage,
}

impl ChannelView {
    pub open spec fn wf(self) -> bool {
        self.stage matches SetupStage::Configuring(i) ==> i < config_calls(self.role).len()
    }

    /// Whether set-up still waits for a native call.
    pub open spec fn in_setup(self) -> bool {
        !(self.stage is Connected) && !(self.stage is Failed)
    }

    /// The native call due at this point of set-up.
    pub open spec fn pending(self) -> Option<ChannelCall> {
        match self.stage {
            SetupStage::Configuring(i) => Some(config_calls(self.role)[i as int]),
            SetupStage::AwaitingProbe => Some(ChannelCall::RecvProbe(PROBE_LEN)),
            SetupStage::AwaitingPeer => Some(ChannelCall::PeerAddrUpdate),
            SetupStage::SendingProbe => Some(ChannelCall::SendProbe(PROBE_LEN)),
            _ => None,
        }
    }

    /// The stage after the pending call returned `status`.
    pub open spec fn next_stage(self, status: DocaStatus) -> SetupStage {
        match self.stage {
            SetupStage::Configuring(i) => {
                if status != DocaStatus::Success {
                    SetupStage::Failed(status)
                } else if i + 1 < config_calls(self.role).len() {
                    SetupStage::Configuring((i + 1) as usize)
                } else {
                    handshake_stage(self.role)
                }
            },
            SetupStage::AwaitingPeer => {
                if status == DocaStatus::ConnectionInProgress {
                    SetupStage::AwaitingPeer
                } else if status == DocaStatus::Success {
                    SetupStage::SendingProbe
                } else {
                    SetupStage::Failed(status)
                }
            },
            _ => {
                if status == DocaStatus::Success {
                    SetupStage::Connected
                } else if status == DocaStatus::Again {
                    self.stage
                } else {
                    SetupStage::Failed(status)
                }
            },
        }
    }

    /// What the caller does next, after the pending call returned `status`.
    pub open spec fn action(self, status: DocaStatus) -> SetupAction {
        match self.next_stage(status) {
            SetupStage::Connected => SetupAction::Connected,
            SetupStage::Failed(s) => SetupAction::Fatal(s),
            next => if next == self.stage {
                SetupAction::RetryAfterMs(RETRY_DELAY_MS)
            } else {
                SetupAction::Proceed
            },
        }
    }
}

/// Why a payload of `len` bytes may not be sent on an endpoint at `stage`,
/// if it may not.
pub open spec fn send_refusal(stage: SetupStage, len: usize) -> Option<DocaStatus> {
    if stage != SetupStage::Connected {
        Some(DocaStatus::NotConnected)
    } else if len > MAX_MSG_SIZE {
        Some(DocaStatus::InvalidValue)
    } else {
        None
    }
}

/// One end of a comm channel.
pub struct CommChannel {
    role: Role,
    stage: SetupStage,
}

impl View for CommChannel {
    type V = ChannelView;

    closed spec fn view(&self) -> ChannelView {
        ChannelView { role: self.role, stage: self.stage }
    }
}

/// The configuration call at position `i` of `role`'s sequence.
fn config_call(role: Role, i: usize) -> (r: ChannelCall)
    requires
        i < config_calls(role).len(),
    ensures
        r == config_calls(role)[i as int],
{
    match i {
        0 => ChannelCall::Create,
        1 => ChannelCall::SetDevice,
        2 => ChannelCall::SetMaxMsgSize(MAX_MSG_SIZE),
        3 => ChannelCall::SetSendQueueSize(QUEUE_SIZE),
        4 => ChannelCall::SetRecvQueueSize(QUEUE_SIZE),
        _ => match role {
            Role::Server => if i == 5 {
                ChannelCall::SetDeviceRep
            } else {
                ChannelCall::Listen
            },
            Role::Client => ChannelCall::Connect,
        },
    }
}

fn config_len(role: Role) -> (r: usize)
    ensures
        r == config_calls(role).len(),
{
    match role {
        Role::Server => 7,
        Role::Client => 6,
    }
}

/// The blocking retry policy applied to one attempt's status.
pub fn poll_status(status: DocaStatus) -> (r: Poll)
    ensures
        r == poll_of(status),
{
    match status {
        DocaStatus::Success => Poll::Done,
        DocaStatus::Again => Poll::RetryAfterMs(RETRY_DELAY_MS),
        _ => Poll::Fatal(status),
    }
}

impl CommChannel {
    /// A server endpoint at the start of its set-up; once connected it
    /// serves the client that sent the first probe.
    pub fn create_server() -> (r: CommChannel)
        ensures
            r@.role == Role::Server,
            r@.stage == SetupStage::Configuring(0),
            r@.wf(),
    {
        CommChannel { role: Role::Server, stage: SetupStage::Configuring(0) }
    }

    /// A client endpoint at the start of its set-up.
    pub fn create_client() -> (r: CommChannel)
        ensures
            r@.role == Role::Client,
            r@.stage == SetupStage::Configuring(0),
            r@.wf(),
    {
        CommChannel { role: Role::Client, stage: SetupStage::Configuring(0) }
    }

    /// The native call due now, or `None` once set-up has ended.
    pub fn pending_call(&self) -> (r: Option<ChannelCall>)
        requires
            self@.wf(),
        ensures
            r == self@.pending(),
    {
        match self.stage {
            SetupStage::Configuring(i) => Some(config_call(self.role, i)),
            SetupStage::AwaitingProbe => Some(ChannelCall::RecvProbe(PROBE_LEN)),
            SetupStage::AwaitingPeer => Some(ChannelCall::PeerAddrUpdate),
            SetupStage::SendingProbe => Some(ChannelCall::SendProbe(PROBE_LEN)),
            _ => None,
        }
    }

    /// Takes the status of the pending call and moves set-up on.
    ///
    /// A configuration step either succeeds or ends set-up. The server's
    /// probe receive and the client's probe send are repeated while the
    /// transport answers `Again`; the client's peer-address update is
    /// repeated while it answers `ConnectionInProgress`. Any other status
    /// but success ends set-up.
    pub fn on_setup_status(&mut self, status: DocaStatus) -> (r: SetupAction)
        requires
            old(self)@.wf(),
            old(self)@.in_setup(),
        ensures
            final(self)@.wf(),
            final(self)@.role == old(self)@.role,
            final(self)@.stage == old(self)@.next_stage(status),
            r == old(self)@.action(status),
    {
        let next = match self.stage {
            SetupStage::Configuring(i) => {
                if !status.is_success() {
                    SetupStage::Failed(status)
                } else if i + 1 < config_len(self.role) {
                    SetupStage::Configuring(i + 1)
                } else {
                    match self.role {
                        Role::Server => SetupStage::AwaitingProbe,
                        Role::Client => SetupStage::AwaitingPeer,
                    }
                }
            },
            SetupStage::AwaitingPeer => {
                if status == DocaStatus::ConnectionInProgress {
                    SetupStage::AwaitingPeer
                } else if status == DocaStatus::Success {
                    SetupStage::SendingProbe
                } else {
                    SetupStage::Failed(status)
                }
            },
            _ => {
                if status.is_success() {
                    SetupStage::Connected
                } else if status == DocaStatus::Again {
                    self.stage
                } else {
                    SetupStage::Failed(status)
                }
            },
        };
        let action = match next {
            SetupStage::Connected => SetupAction::Connected,
            SetupStage::Failed(s) => SetupAction::Fatal(s),
            _ => if next == self.stage {
                SetupAction::RetryAfterMs(RETRY_DELAY_MS)
            } else {
                SetupAction::Proceed
            },
        };
        self.stage = next;
        action
    }

    /// Whether set-up has connected the endpoint to its peer.
    pub fn is_connected(&self) -> (r: bool)
        ensures
            r == (self@.stage == SetupStage::Connected),
    {
        self.stage == SetupStage::Connected
    }

    /// The role the endpoint was created with.
    pub fn role(&self) -> (r: Role)
        ensures
            r == self@.role,
    {
        self.role
    }

    /// Whether `msg` may be sent: the endpoint must be connected, and a
    /// payload longer than [`MAX_MSG_SIZE`] is refused rather than cut or
    /// split.
    pub fn admit_send(&self, msg: &MemRegion) -> (r: DOCAResult<()>)
        ensures
            self@.stage != SetupStage::Connected ==> r == Err::<(), DocaStatus>(DocaStatus::NotConnected),
            self@.stage == SetupStage::Connected && msg.len > MAX_MSG_SIZE ==> r == Err::<(), DocaStatus>(
                DocaStatus::InvalidValue,
            ),
            self@.stage == SetupStage::Connected && msg.len <= MAX_MSG_SIZE ==> r == Ok::<(), DocaStatus>(()),
            r is Err <==> send_refusal(self@.stage, msg.len) is Some,
            r is Err ==> r->Err_0 == send_refusal(self@.stage, msg.len)->Some_0,
    {
        if self.stage != SetupStage::Connected {
            Err(DocaStatus::NotConnected)
        } else if msg.len > MAX_MSG_SIZE {
            Err(DocaStatus::InvalidValue)
        } else {
            Ok(())
        }
    }

    /// One attempt of a blocking send of `msg`, given the status of the
    /// native send: done on success, wait and repeat on `Again`, fatal
    /// otherwise. A payload that may not be sent (see [`Self::admit_send`])
    /// is fatal at once, whatever `status` says: it never counts as sent and
    /// is never retried.
    pub fn block_send_req(&self, msg: &MemRegion, status: DocaStatus) -> (r: Poll)
        ensures
            send_refusal(self@.stage, msg.len) is Some ==> r == Poll::Fatal(send_refusal(self@.stage, msg.len)->Some_0),
            send_refusal(self@.stage, msg.len) is None ==> r == poll_of(status),
    {
        match self.admit_send(msg) {
            Err(e) => Poll::Fatal(e),
            Ok(()) => poll_status(status),
        }
    }

    /// One attempt of a blocking receive into `buf`, given the status of the
    /// native receive and the byte count it reported. On success the
    /// buffer's length becomes that count; otherwise the buffer is kept.
    pub fn block_recv_req(&self, buf: &mut MemRegion, status: DocaStatus, received: usize) -> (r: Poll)
        requires
            self@.stage == SetupStage::Connected,
        ensures
            r == poll_of(status),
            status == DocaStatus::Success ==> *final(buf) == (MemRegion { addr: old(buf).addr, len: received }),
            status != DocaStatus::Success ==> *final(buf) == *old(buf),
    {
        if status.is_success() {
            buf.len = received;
        }
        poll_status(status)
    }

    /// One non-blocking receive into `buf`: the native status comes back
    /// as it is, the transient `Again` included. On success the buffer's
    /// length becomes the byte count received; otherwise the buffer is kept.
    pub fn recv_req(&self, buf: &mut MemRegion, status: DocaStatus, received: usize) -> (r: DocaStatus)
        requires
            self@.stage == SetupStage::Connected,
        ensures
            r == status,
            status == DocaStatus::Success ==> *final(buf) == (MemRegion { addr: old(buf).addr, len: received }),
            status != DocaStatus::Success ==> *final(buf) == *old(buf),
    {
        if status.is_success() {
            buf.len = received;
        }
        status
    }
}

/// Set-up retries only in its waits for the handshake, and only on the one
/// transient code of each wait; a configuration call that does not succeed
/// ends set-up with its own status, and so does any call that answers
/// neither success nor a transient code.
pub proof fn lemma_setup_retry_policy(v: ChannelView, status: DocaStatus)
    requires
        v.wf(),
        v.in_setup(),
    ensures
        v.action(status) is RetryAfterMs ==> {
            ||| v.stage == SetupStage::AwaitingProbe && status == DocaStatus::Again
            ||| v.stage == SetupStage::SendingProbe && status == DocaStatus::Again
            ||| v.stage == SetupStage::AwaitingPeer && status == DocaStatus::ConnectionInProgress
        },
        v.stage is Configuring && status != DocaStatus::Success ==> v.action(status) == SetupAction::Fatal(status),
        status != DocaStatus::Success && status != DocaStatus::Again && status != DocaStatus::ConnectionInProgress
            ==> v.action(status) == SetupAction::Fatal(status),
{
}

} // verus!
