//! Descriptors that are waited on.
use vstd::prelude::*;

verus! {

/// Data can be read.
pub const POLLIN: i16 = 0x1;

/// An error condition.
pub const POLLERR: i16 = 0x8;

/// The peer hung up.
pub const POLLHUP: i16 = 0x10;

/// The descriptor is not open.
pub const POLLNVAL: i16 = 0x20;

/// The constant `libc::POLLIN` of Linux.
#[verifier::external_body]
fn libc_pollin() -> (r: i16)
    ensures
        r == POLLIN,
{
    libc::POLLIN
}

/// The constant `libc::POLLERR` of Linux.
#[verifier::external_body]
fn libc_pollerr() -> (r: i16)
    ensures
        r == POLLERR,
{
    libc::POLLERR
}

/// The constant `libc::POLLHUP` of Linux.
#[verifier::external_body]
fn libc_pollhup() -> (r: i16)
    ensures
        r == POLLHUP,
{
    libc::POLLHUP
}

/// The constant `libc::POLLNVAL` of Linux.
#[verifier::external_body]
fn libc_pollnval() -> (r: i16)
    ensures
        r == POLLNVAL,
{
    libc::POLLNVAL
}

/// A descriptor that is waited on, as poll(2) takes it and gives it back.
#[derive(Debug, Clone, Copy, PartialEq, Eq)]
pub struct PollFd {
    pub fd: i32,
    pub events: i16,
    pub revents: i16,
}

impl PollFd {
    /// Data can be read from the descriptor.
    pub open spec fn has_data(self) -> bool {
        self.revents & POLLIN != 0
    }

    /// The descriptor has an error condition. Such a condition persists: waiting again
    /// returns at once.
    pub open spec fn is_broken(self) -> bool {
        ||| self.revents & POLLERR != 0
        ||| self.revents & POLLHUP != 0
        ||| self.revents & POLLNVAL != 0
    }

    /// A descriptor that is to be waited on for data; nothing is known of it yet.
    pub fn readable(fd: i32) -> (r: PollFd)
        ensures
            r == (PollFd { fd, events: POLLIN, revents: 0 }),
            !r.has_data(),
            !r.is_broken(),
    {
        assert(0i16 & 0x1i16 == 0 && 0i16 & 0x8i16 == 0 && 0i16 & 0x10i16 == 0 && 0i16 & 0x20i16
            == 0) by (bit_vector);
        PollFd { fd, events: libc_pollin(), revents: 0 }
    }

    /// Whether data can be read.
    pub fn is_readable(&self) -> (r: bool)
        ensures
            r == self.has_data(),
    {
        (self.revents & libc_pollin()) != 0
    }

    /// Whether there is an error condition.
    pub fn has_error(&self) -> (r: bool)
        ensures
            r == self.is_broken(),
    {
        (self.revents & libc_pollerr()) != 0 || (self.revents & libc_pollhup()) != 0
            || (self.revents & libc_pollnval()) != 0
    }
}

/// Data can be read exactly if the lowest bit is set, and there is an error condition exactly
/// if the third, fourth or fifth bit above it is; what was asked for does not matter.
pub proof fn law_revents(p: PollFd)
    ensures
        p.has_data() <==> p.revents & 0x1 != 0,
        p.is_broken() <==> p.revents & 0x38 != 0,
{
    let r = p.revents;
    assert((r & 0x8i16 != 0 || r & 0x10i16 != 0 || r & 0x20i16 != 0) <==> r & 0x38i16 != 0)
        by (bit_vector);
}

/// Bits that are neither for data nor for an error condition have no influence.
pub proof fn law_other_bits_do_not_matter(p: PollFd, q: PollFd)
    requires
        p.revents & 0x39 == q.revents & 0x39,
    ensures
        p.has_data() == q.has_data(),
        p.is_broken() == q.is_broken(),
{
    let (a, b) = (p.revents, q.revents);
    assert(a & 0x1i16 == b & 0x1i16 && a & 0x38i16 == b & 0x38i16) by (bit_vector)
        requires
            a & 0x39i16 == b & 0x39i16,
    ;
    law_revents(p);
    law_revents(q);
}

} // verus!
