//! Per-direction byte budgets over a rolling accounting window.
use vstd::prelude::*;

verus! {

/// Capacity of the staging buffer of one direction: no single read is larger.
pub const BUFFER_SIZE: usize = 16384;

/// One of the two directions of a relay session.
#[derive(Clone, Copy, Debug, PartialEq, Eq, Structural)]
pub enum Direction {
    /// Bytes read from the upstream endpoint and written to the client.
    Download,
    /// Bytes read from the client and written to the upstream endpoint.
    Upload,
}

impl Direction {
    /// The opposite direction.
    pub open spec fn other(self) -> Direction {
        match self {
            Direction::Download => Direction::Upload,
            Direction::Upload => Direction::Download,
        }
    }
}

/// The budget of one direction: a limit in bytes per window and what the
/// current window has consumed of it.
#[derive(Clone, Copy, Debug, PartialEq, Eq, Structural)]
pub struct Budget {
    pub limit: u64,
    pub consumed: u64,
}

/// The smaller of two naturals.
pub open spec fn min_nat(a: nat, b: nat) -> nat {
    if a <= b { a } else { b }
}

impl Budget {
    /// A budget with nothing consumed.
    pub open spec fn new_spec(limit: u64) -> Budget {
        Budget { limit, consumed: 0 }
    }

    /// A window never consumes more than the limit.
    pub open spec fn wf(&self) -> bool {
        self.consumed <= self.limit
    }

    /// Bytes that may still be read in this window: what is left of the
    /// limit, bounded by the buffer capacity.
    pub open spec fn remaining_spec(&self) -> nat {
        min_nat((self.limit - self.consumed) as nat, BUFFER_SIZE as nat)
    }

    /// A fresh budget with nothing consumed.
    pub fn new(limit: u64) -> (r: Budget)
        ensures
            r == Budget::new_spec(limit),
            r.wf(),
    {
        Budget { limit, consumed: 0 }
    }

    /// `min(limit - consumed, BUFFER_SIZE)`.
    pub fn remaining(&self) -> (r: usize)
        requires
            self.wf(),
        ensures
            r as nat == self.remaining_spec(),
            r <= BUFFER_SIZE,
    {
        let left: u64 = self.limit - self.consumed;
        if left < BUFFER_SIZE as u64 {
            left as usize
        } else {
            BUFFER_SIZE
        }
    }

    /// Charges `n` bytes to the current window.
    pub fn record(&mut self, n: usize)
        requires
            old(self).wf(),
            n as nat <= old(self).remaining_spec(),
        ensures
            final(self).wf(),
            final(self).limit == old(self).limit,
            final(self).consumed == old(self).consumed + n,
    {
        self.consumed = self.consumed + n as u64;
    }

    /// Opens a new window.
    pub fn reset(&mut self)
        ensures
            final(self).wf(),
            final(self).limit == old(self).limit,
            final(self).consumed == 0,
    {
        self.consumed = 0;
    }
}

/// The budgets of both directions of a session.
#[derive(Clone, Copy, Debug, PartialEq, Eq, Structural)]
pub struct BudgetTracker {
    pub download: Budget,
    pub upload: Budget,
}

impl BudgetTracker {
    pub open spec fn wf(&self) -> bool {
        self.download.wf() && self.upload.wf()
    }

    /// The budget of direction `d`.
    pub open spec fn budget(&self, d: Direction) -> Budget {
        match d {
            Direction::Download => self.download,
            Direction::Upload => self.upload,
        }
    }

    pub open spec fn remaining_spec(&self, d: Direction) -> nat {
        self.budget(d).remaining_spec()
    }

    pub fn new(download_limit: u64, upload_limit: u64) -> (r: BudgetTracker)
        ensures
            r.wf(),
            r.download == Budget::new_spec(download_limit),
            r.upload == Budget::new_spec(upload_limit),
    {
        BudgetTracker { download: Budget::new(download_limit), upload: Budget::new(upload_limit) }
    }

    /// `min(limit - consumed, BUFFER_SIZE)` for direction `d`.
    pub fn remaining(&self, d: Direction) -> (r: usize)
        requires
            self.wf(),
        ensures
            r as nat == self.remaining_spec(d),
    {
        match d {
            Direction::Download => self.download.remaining(),
            Direction::Upload => self.upload.remaining(),
        }
    }

    /// Charges `n` bytes to direction `d`; the other direction is untouched.
    pub fn record(&mut self, d: Direction, n: usize)
        requires
            old(self).wf(),
            n as nat <= old(self).remaining_spec(d),
        ensures
            final(self).wf(),
            final(self).budget(d).limit == old(self).budget(d).limit,
            final(self).budget(d).consumed == old(self).budget(d).consumed + n,
            final(self).budget(d.other()) == old(self).budget(d.other()),
            *final(self) == old(self).recorded(d, n as nat),
    {
        match d {
            Direction::Download => self.download.record(n),
            Direction::Upload => self.upload.record(n),
        }
    }

    /// Sets the consumption of both directions back to zero.
    pub fn reset(&mut self)
        ensures
            final(self).wf(),
            final(self).download == Budget::new_spec(old(self).download.limit),
            final(self).upload == Budget::new_spec(old(self).upload.limit),
            *final(self) == old(self).reset_spec(),
    {
        self.download.reset();
        self.upload.reset();
    }
}

impl BudgetTracker {
    /// The tracker after charging `n` bytes to direction `d`.
    pub open spec fn recorded(self, d: Direction, n: nat) -> BudgetTracker {
        match d {
            Direction::Download => BudgetTracker {
                download: Budget { consumed: (self.download.consumed + n) as u64, ..self.download },
                ..self
            },
            Direction::Upload => BudgetTracker {
                upload: Budget { consumed: (self.upload.consumed + n) as u64, ..self.upload },
                ..self
            },
        }
    }

    /// The tracker after a window reset.
    pub open spec fn reset_spec(self) -> BudgetTracker {
        BudgetTracker {
            download: Budget::new_spec(self.download.limit),
            upload: Budget::new_spec(self.upload.limit),
        }
    }
}

} // verus!
