//! How a coredump connection is served.
//!
//! Nothing that comes over a connection is believed until the kernel has said who is at its
//! other end. The peer's pidfd comes first, then what the kernel knows of the task behind it;
//! the dump is stored only where that task is dumping core, and whatever fails on the way
//! drops the connection.
use vstd::prelude::*;

use crate::pidfd::{self, Admission, PeerPidfdError, PidfdInfo};

verus! {

/// Why a connection was dropped.
#[derive(Debug, Clone, Copy, PartialEq, Eq, Structural)]
pub enum Refusal {
    /// There is no pidfd of the peer.
    NoPidfd(PeerPidfdError),
    /// The kernel said nothing about the peer.
    NoInfo,
    /// The peer is no crashing task.
    NotCrashing(PidfdInfo),
}

/// Where the service of a connection stands: what comes next, or how it ended.
#[derive(Debug, Clone, Copy, PartialEq, Eq, Structural)]
pub enum ConnectionStage {
    /// Ask for the pidfd of the peer.
    GetPidfd,
    /// Ask the kernel about the task behind this pidfd.
    GetInfo { pidfd: i32 },
    /// Store the dump of the task that the kernel told of, with credentials or without.
    Store { info: PidfdInfo, admission: Admission },
    /// The dump was handed to the recorder.
    Served,
    /// The connection is to be closed unread.
    Dropped(Refusal),
}

/// What came of a step.
#[derive(Debug, Clone, Copy)]
pub enum ConnectionReply {
    /// `getsockopt(SO_PEERPIDFD)`: its return value, the length that it wrote, and the
    /// descriptor.
    PeerPidfd { ret: i32, len: u32, pidfd: i32 },
    /// `ioctl(PIDFD_GET_INFO)`: its return value, and what it wrote.
    Info { ret: i32, info: PidfdInfo },
    /// The recorder has ended, one way or the other.
    Recorded,
}

impl ConnectionReply {
    /// The pidfd that the kernel gave, if it gave one.
    pub open spec fn pidfd(self) -> Result<i32, PeerPidfdError> {
        match self {
            ConnectionReply::PeerPidfd { ret, len, pidfd } => pidfd::peer_pidfd(ret, len, pidfd),
            _ => Err(PeerPidfdError::Os),
        }
    }

    /// What the kernel said of the task, if it said anything.
    pub open spec fn info(self) -> Option<PidfdInfo> {
        match self {
            ConnectionReply::Info { ret, info } if ret == 0 => Some(info),
            _ => None,
        }
    }
}

impl ConnectionStage {
    /// The stage after the reply.
    pub open spec fn after(self, reply: ConnectionReply) -> ConnectionStage {
        match self {
            ConnectionStage::GetPidfd => match reply.pidfd() {
                Ok(pidfd) => ConnectionStage::GetInfo { pidfd },
                Err(e) => ConnectionStage::Dropped(Refusal::NoPidfd(e)),
            },
            ConnectionStage::GetInfo { .. } => match reply.info() {
                Some(info) => if info.dumped_core() {
                    ConnectionStage::Store { info, admission: pidfd::admission(info) }
                } else {
                    ConnectionStage::Dropped(Refusal::NotCrashing(info))
                },
                None => ConnectionStage::Dropped(Refusal::NoInfo),
            },
            ConnectionStage::Store { .. } => ConnectionStage::Served,
            ConnectionStage::Served | ConnectionStage::Dropped(_) => self,
        }
    }

    /// The stage of a new connection after a sequence of replies.
    pub open spec fn reached(replies: Seq<ConnectionReply>) -> ConnectionStage
        decreases replies.len(),
    {
        if replies.len() == 0 {
            ConnectionStage::GetPidfd
        } else {
            Self::reached(replies.drop_last()).after(replies.last())
        }
    }

    /// Takes in what came of a step.
    pub fn next(self, reply: ConnectionReply) -> (r: Self)
        ensures
            r == self.after(reply),
    {
        match (self, reply) {
            (ConnectionStage::GetPidfd, ConnectionReply::PeerPidfd { ret, len, pidfd }) => {
                match pidfd::get_peer_pidfd(ret, len, pidfd) {
                    Ok(pidfd) => ConnectionStage::GetInfo { pidfd },
                    Err(e) => ConnectionStage::Dropped(Refusal::NoPidfd(e)),
                }
            },
            (ConnectionStage::GetPidfd, _) => ConnectionStage::Dropped(
                Refusal::NoPidfd(PeerPidfdError::Os),
            ),
            (ConnectionStage::GetInfo { .. }, ConnectionReply::Info { ret: 0, info }) => {
                match pidfd::judge_connection(&info) {
                    Admission::Rejected => ConnectionStage::Dropped(Refusal::NotCrashing(info)),
                    admission => ConnectionStage::Store { info, admission },
                }
            },
            (ConnectionStage::GetInfo { .. }, _) => ConnectionStage::Dropped(Refusal::NoInfo),
            (ConnectionStage::Store { .. }, _) => ConnectionStage::Served,
            (ConnectionStage::Served, _) | (ConnectionStage::Dropped(_), _) => self,
        }
    }
}

/// Whether the kernel gave a pidfd of the peer and said that the task behind it dumped core.
pub open spec fn authenticated(replies: Seq<ConnectionReply>) -> bool {
    &&& replies.len() >= 2
    &&& replies[0].pidfd() is Ok
    &&& replies[1].info() matches Some(info) && info.dumped_core()
}

proof fn lemma_reached(replies: Seq<ConnectionReply>)
    ensures
        match ConnectionStage::reached(replies) {
            ConnectionStage::GetPidfd => replies.len() == 0,
            ConnectionStage::GetInfo { pidfd } => replies.len() == 1 && replies[0].pidfd() == Ok::<
                i32,
                PeerPidfdError,
            >(pidfd),
            ConnectionStage::Store { info, admission } => {
                &&& replies.len() == 2
                &&& authenticated(replies)
                &&& replies[1].info() == Some(info)
                &&& admission == pidfd::admission(info)
            },
            ConnectionStage::Served => replies.len() >= 3 && authenticated(replies),
            ConnectionStage::Dropped(_) => {
                &&& replies.len() >= 1
                &&& replies[0].pidfd() is Err || (replies.len() >= 2 && !authenticated(replies))
            },
        },
    decreases replies.len(),
{
    if replies.len() > 0 {
        lemma_reached(replies.drop_last());
    }
}

/// A dump is stored if and only if the kernel gave a pidfd of the peer, and then information
/// about the task behind it that says that it dumped core. It is stored with that
/// information, and with credentials only where the kernel gave them.
pub proof fn law_stored_iff_authenticated(replies: Seq<ConnectionReply>)
    ensures
        ConnectionStage::reached(replies) is Store || ConnectionStage::reached(replies) is Served
            <==> authenticated(replies),
        ConnectionStage::reached(replies) matches ConnectionStage::Store { info, admission } ==> {
            &&& replies[1].info() == Some(info)
            &&& info.dumped_core()
            &&& admission is Admitted <==> info.credentialed()
            &&& admission is WithoutCreds <==> !info.credentialed()
        },
{
    lemma_reached(replies);
}

/// The task that is asked about is the one behind the pidfd that the kernel gave for the peer.
pub proof fn law_info_is_of_the_peer(replies: Seq<ConnectionReply>, pidfd: i32)
    requires
        ConnectionStage::reached(replies) == (ConnectionStage::GetInfo { pidfd }),
    ensures
        replies.len() == 1,
        replies[0] == (ConnectionReply::PeerPidfd { ret: 0, len: pidfd::FD_SIZE, pidfd }),
        pidfd >= 0,
{
    lemma_reached(replies);
}

/// A connection that was dropped stays dropped, for the same reason, whatever follows.
pub proof fn law_dropped_stays_dropped(
    replies: Seq<ConnectionReply>,
    more: Seq<ConnectionReply>,
)
    requires
        ConnectionStage::reached(replies) is Dropped,
    ensures
        ConnectionStage::reached(replies + more) == ConnectionStage::reached(replies),
    decreases more.len(),
{
    if more.len() == 0 {
        assert(replies + more == replies);
    } else {
        law_dropped_stays_dropped(replies, more.drop_last());
        assert((replies + more).drop_last() == replies + more.drop_last());
    }
}

/// What becomes of a connection, in terms of what the kernel answered: the dump of every task
/// that it says dumped core is stored, whatever else it says of it, and every other connection
/// is dropped for the reason that came first.
pub proof fn law_served_by_answers(
    ret: i32,
    len: u32,
    pidfd: i32,
    info_ret: i32,
    info: PidfdInfo,
    more: Seq<ConnectionReply>,
)
    ensures
        ({
            let first = ConnectionReply::PeerPidfd { ret, len, pidfd };
            let second = ConnectionReply::Info { ret: info_ret, info };
            let crashing = (info.mask / 16) % 2 == 1 && info.coredump_mask % 2 == 1;
            let (one, two) = (seq![first], seq![first, second]);
            if ret != 0 {
                ConnectionStage::reached(one + more) == ConnectionStage::Dropped(
                    Refusal::NoPidfd(PeerPidfdError::Os),
                )
            } else if len != 4 {
                ConnectionStage::reached(one + more) == ConnectionStage::Dropped(
                    Refusal::NoPidfd(PeerPidfdError::Truncated),
                )
            } else if pidfd < 0 {
                ConnectionStage::reached(one + more) == ConnectionStage::Dropped(
                    Refusal::NoPidfd(PeerPidfdError::Negative),
                )
            } else {
                &&& ConnectionStage::reached(one) == (ConnectionStage::GetInfo { pidfd })
                &&& if info_ret != 0 {
                    ConnectionStage::reached(two + more) == ConnectionStage::Dropped(
                        Refusal::NoInfo,
                    )
                } else if !crashing {
                    ConnectionStage::reached(two + more) == ConnectionStage::Dropped(
                        Refusal::NotCrashing(info),
                    )
                } else {
                    &&& ConnectionStage::reached(two) == (ConnectionStage::Store {
                        info,
                        admission: if (info.mask / 2) % 2 == 1 {
                            Admission::Admitted
                        } else {
                            Admission::WithoutCreds
                        },
                    })
                    &&& more.len() > 0 ==> ConnectionStage::reached(two + more) is Served
                }
            }
        }),
    decreases more.len(),
{
    let first = ConnectionReply::PeerPidfd { ret, len, pidfd };
    let second = ConnectionReply::Info { ret: info_ret, info };
    let (one, two) = (seq![first], seq![first, second]);
    pidfd::law_flags(info);
    assert(ConnectionStage::reached(Seq::empty()) == ConnectionStage::GetPidfd);
    assert(one.drop_last() == Seq::<ConnectionReply>::empty());
    assert(two.drop_last() == one);
    if more.len() == 0 {
        assert(one + more == one);
        assert(two + more == two);
    } else {
        law_served_by_answers(ret, len, pidfd, info_ret, info, more.drop_last());
        assert((one + more).drop_last() == one + more.drop_last());
        assert((two + more).drop_last() == two + more.drop_last());
        if more.len() == 1 {
            assert(two + more.drop_last() == two);
        }
    }
}

/// A new connection begins with the peer's pidfd, and an answer to another question than was
/// asked is none.
pub proof fn law_answers_match_questions(reply: ConnectionReply)
    ensures
        ConnectionStage::reached(Seq::empty()) is GetPidfd,
        reply !is PeerPidfd ==> ConnectionStage::reached(seq![reply]) == ConnectionStage::Dropped(
            Refusal::NoPidfd(PeerPidfdError::Os),
        ),
        forall|pidfd: i32|
            reply !is Info ==> (#[trigger] (ConnectionStage::GetInfo { pidfd }).after(reply))
                == ConnectionStage::Dropped(Refusal::NoInfo),
{
    assert(seq![reply].drop_last() == Seq::<ConnectionReply>::empty());
}

} // verus!
