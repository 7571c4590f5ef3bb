//! The bounded scan dispatcher and the per-port probe outcomes.
//!
//! A scan creates one task per port up front; every task must take a
//! permit from the limiter before it touches the network and gives it
//! back when it finishes, whatever happened. The dispatcher tracks each
//! task through the three stages pending, running and finished, and its
//! invariant ties the running count to the permits out of the limiter:
//! at most the configured capacity of probes is ever mid-flight, and a
//! finished scan has returned every permit.
//!
//! The caller performs the connect and read themselves and hands the raw
//! outcome back; classification into a scan result is pure and verified.

use vstd::prelude::*;

use crate::limiter::Limiter;
use crate::range::PortRange;

verus! {

pub const DEFAULT_CONNECT_TIMEOUT_SECS: u64 = 2;

pub const DEFAULT_READ_TIMEOUT_SECS: u64 = 2;

pub const DEFAULT_BANNER_BUFFER_SIZE: usize = 1024;

pub const DEFAULT_MAX_CONCURRENT: usize = 100;

/// The tunable parameters of a scan: both timeouts, the size of the
/// banner buffer, and how many probes may be mid-flight at once.
pub struct ScanConfig {
    pub connect_timeout_secs: u64,
    pub read_timeout_secs: u64,
    pub banner_buffer_size: usize,
    pub max_concurrent: usize,
}

impl ScanConfig {
    /// A usable configuration always allows at least one probe in flight.
    pub open spec fn wf(self) -> bool {
        self.max_concurrent >= 1
    }
}

impl Default for ScanConfig {
    /// The stock configuration: two-second timeouts, a one-kilobyte
    /// banner buffer, and a hundred concurrent probes.
    fn default() -> (r: ScanConfig)
        ensures
            r.connect_timeout_secs == DEFAULT_CONNECT_TIMEOUT_SECS,
            r.read_timeout_secs == DEFAULT_READ_TIMEOUT_SECS,
            r.banner_buffer_size == DEFAULT_BANNER_BUFFER_SIZE,
            r.max_concurrent == DEFAULT_MAX_CONCURRENT,
            r.wf(),
    {
        ScanConfig {
            connect_timeout_secs: DEFAULT_CONNECT_TIMEOUT_SECS,
            read_timeout_secs: DEFAULT_READ_TIMEOUT_SECS,
            banner_buffer_size: DEFAULT_BANNER_BUFFER_SIZE,
            max_concurrent: DEFAULT_MAX_CONCURRENT,
        }
    }
}

/// One host together with the validated range of its ports to probe.
pub struct Target {
    pub host: String,
    pub range: PortRange,
}

impl Target {
    pub open spec fn wf(self) -> bool {
        self.range.wf()
    }

    pub fn new(host: String, range: PortRange) -> (r: Target)
        requires
            range.wf(),
        ensures
            r.wf(),
            r.host == host,
            r.range == range,
    {
        Target { host, range }
    }
}

/// What one read attempt on an open connection yielded.
#[derive(Debug)]
pub enum ReadOutcome {
    /// The read returned, with the banner buffer as it stands afterwards.
    Data { bytes: Vec<u8> },
    /// The read timed out or failed.
    ReadFailed,
}

/// What one port's probe yielded, as the caller observed it.
#[derive(Debug)]
pub enum ConnectOutcome {
    /// The host and port did not resolve to a socket address.
    Unresolved,
    /// The connect attempt timed out, was refused, or was unreachable.
    ConnectFailed,
    /// The connection was established and a read was attempted.
    Connected { read: ReadOutcome },
}

/// The result of probing one port.
#[derive(Debug)]
pub enum ScanResult {
    /// The address did not resolve; the port was neither open nor closed.
    Unresolved,
    /// No connection: the port is closed or filtered.
    Closed,
    /// Open, and the read returned this banner buffer.
    OpenWithBanner { banner: Vec<u8> },
    /// Open, but no banner could be read.
    OpenNoBanner,
}

/// How each probe outcome is classified into a scan result.
pub open spec fn classify_spec(o: ConnectOutcome) -> ScanResult {
    match o {
        ConnectOutcome::Unresolved => ScanResult::Unresolved,
        ConnectOutcome::ConnectFailed => ScanResult::Closed,
        ConnectOutcome::Connected { read: ReadOutcome::Data { bytes } } => ScanResult::OpenWithBanner {
            banner: bytes,
        },
        ConnectOutcome::Connected { read: ReadOutcome::ReadFailed } => ScanResult::OpenNoBanner,
    }
}

/// Classifies one probe outcome: an unresolved address stays silent, a
/// failed connect is a closed port, an established connection is open,
/// with or without a banner according to the read.
pub fn classify(outcome: ConnectOutcome) -> (r: ScanResult)
    ensures
        r == classify_spec(outcome),
{
    match outcome {
        ConnectOutcome::Unresolved => ScanResult::Unresolved,
        ConnectOutcome::ConnectFailed => ScanResult::Closed,
        ConnectOutcome::Connected { read } => match read {
            ReadOutcome::Data { bytes } => ScanResult::OpenWithBanner { banner: bytes },
            ReadOutcome::ReadFailed => ScanResult::OpenNoBanner,
        },
    }
}

/// The dispatcher's book of one scan: every task is pending until it
/// takes a permit, running while it holds one, and finished once it has
/// given it back.
pub struct Dispatcher {
    limiter: Limiter,
    pending: usize,
    running: usize,
    finished: usize,
}

impl Dispatcher {
    /// The limiter the scan shares.
    pub closed spec fn limiter(self) -> Limiter {
        self.limiter
    }

    /// Tasks created but not yet holding a permit.
    pub closed spec fn pending_count(self) -> nat {
        self.pending as nat
    }

    /// Tasks holding a permit right now.
    pub closed spec fn running_count(self) -> nat {
        self.running as nat
    }

    /// Tasks that have completed and returned their permit.
    pub closed spec fn finished_count(self) -> nat {
        self.finished as nat
    }

    /// Every task of the scan, whatever its stage.
    pub open spec fn total(self) -> nat {
        self.pending_count() + self.running_count() + self.finished_count()
    }

    pub open spec fn cap(self) -> nat {
        self.limiter().cap()
    }

    pub open spec fn avail_permits(self) -> nat {
        self.limiter().avail()
    }

    /// The dispatcher's invariant: the limiter is well formed, each
    /// running task holds exactly one permit, and the scan covers at
    /// most the whole port space.
    pub open spec fn wf(self) -> bool {
        &&& self.limiter().wf()
        &&& self.running_count() == self.limiter().in_use()
        &&& self.total() <= 65536
    }

    /// Opens a scan over a valid range: one pending task per port, none
    /// running or finished, every permit free.
    pub fn new(range: &PortRange, capacity: usize) -> (r: Dispatcher)
        requires
            range.wf(),
            capacity >= 1,
        ensures
            r.wf(),
            r.total() == range.count(),
            r.pending_count() == range.count(),
            r.running_count() == 0,
            r.finished_count() == 0,
            r.cap() == capacity,
            r.avail_permits() == capacity,
    {
        let count: usize = (range.end as usize) - (range.start as usize) + 1;
        Dispatcher { limiter: Limiter::new(capacity), pending: count, running: 0, finished: 0 }
    }

    /// Moves one pending task into the running stage by taking a permit;
    /// reports whether it could. Nothing changes when no task is pending
    /// or no permit is free.
    pub fn try_start(&mut self) -> (r: bool)
        requires
            old(self).wf(),
        ensures
            final(self).wf(),
            final(self).cap() == old(self).cap(),
            final(self).total() == old(self).total(),
            r == (old(self).pending_count() > 0 && old(self).avail_permits() > 0),
            r ==> final(self).pending_count() == old(self).pending_count() - 1
                && final(self).running_count() == old(self).running_count() + 1
                && final(self).finished_count() == old(self).finished_count()
                && final(self).avail_permits() == old(self).avail_permits() - 1,
            !r ==> final(self).pending_count() == old(self).pending_count()
                && final(self).running_count() == old(self).running_count()
                && final(self).finished_count() == old(self).finished_count()
                && final(self).avail_permits() == old(self).avail_permits(),
    {
        if self.pending == 0 {
            return false;
        }
        let got = self.limiter.try_acquire();
        if got {
            self.pending = self.pending - 1;
            self.running = self.running + 1;
            true
        } else {
            false
        }
    }

    /// Completes one running task: its work is over, whether the probe
    /// succeeded, timed out or failed, and its permit goes back to the
    /// limiter unconditionally.
    pub fn finish_one(&mut self)
        requires
            old(self).wf(),
            old(self).running_count() > 0,
        ensures
            final(self).wf(),
            final(self).cap() == old(self).cap(),
            final(self).total() == old(self).total(),
            final(self).pending_count() == old(self).pending_count(),
            final(self).running_count() == old(self).running_count() - 1,
            final(self).finished_count() == old(self).finished_count() + 1,
            final(self).avail_permits() == old(self).avail_permits() + 1,
    {
        self.running = self.running - 1;
        self.finished = self.finished + 1;
        self.limiter.release();
    }

    /// Whether every task of the scan has finished.
    pub fn is_done(&self) -> (r: bool)
        ensures
            r == (self.finished_count() == self.total()),
    {
        self.pending == 0 && self.running == 0
    }

    pub fn pending_tasks(&self) -> (r: usize)
        ensures
            r == self.pending_count(),
    {
        self.pending
    }

    pub fn running_tasks(&self) -> (r: usize)
        ensures
            r == self.running_count(),
    {
        self.running
    }

    pub fn finished_tasks(&self) -> (r: usize)
        ensures
            r == self.finished_count(),
    {
        self.finished
    }

    pub fn permits_free(&self) -> (r: usize)
        ensures
            r == self.avail_permits(),
    {
        let limiter = &self.limiter;
        limiter.permits()
    }

    pub fn capacity(&self) -> (r: usize)
        ensures
            r == self.cap(),
    {
        let limiter = &self.limiter;
        limiter.max_permits()
    }
}

/// At no point during a scan do more tasks hold a permit, and so touch
/// the network, than the configured capacity.
pub proof fn lemma_concurrency_bounded(d: Dispatcher)
    requires
        d.wf(),
    ensures
        d.running_count() <= d.cap(),
{
}

/// Once every task of a scan has finished, no task is pending or running
/// any more and every permit is back with the limiter: each acquired
/// permit was released exactly once.
pub proof fn lemma_finished_scan_restores_permits(d: Dispatcher)
    requires
        d.wf(),
        d.finished_count() == d.total(),
    ensures
        d.pending_count() == 0,
        d.running_count() == 0,
        d.avail_permits() == d.cap(),
{
}

} // verus!
