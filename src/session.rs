//! The decisions of the relay loop: a session state machine that takes one
//! completed event at a time and answers with the one action to perform.
use vstd::prelude::*;
use crate::budget::{BudgetTracker, Direction};

verus! {

/// The closed set of failures that end a session or keep one from starting.
#[derive(Clone, Copy, Debug, PartialEq, Eq, Structural)]
pub enum ErrorKind {
    /// Binding, accepting, connecting or configuring a socket failed.
    Setup,
    /// A read or a write on one of the two connections failed.
    SessionIo,
    /// The unread-queue probe failed on one of the two connections.
    Diagnostics,
}

/// Why a session ended.
#[derive(Clone, Copy, Debug, PartialEq, Eq, Structural)]
pub enum Termination {
    /// One side closed its sending half.
    EndOfStream,
    /// A fatal failure.
    Failure(ErrorKind),
}

impl Termination {
    /// Process exit status: zero for a clean end of stream, one otherwise.
    pub fn exit_code(&self) -> (r: i32)
        ensures
            r == 0 <==> *self == Termination::EndOfStream,
            r == 0 || r == 1,
    {
        match self {
            Termination::EndOfStream => 0,
            Termination::Failure(_) => 1,
        }
    }
}

/// The unread-queue probe could not report a value.
#[derive(Clone, Copy, Debug, PartialEq, Eq, Structural)]
pub struct ProbeError;

/// One diagnostic record: the unread bytes queued on each connection.
#[derive(Clone, Copy, Debug, PartialEq, Eq, Structural)]
pub struct QueueReport {
    pub server_queue: u64,
    pub client_queue: u64,
}

/// An event that the relay loop has observed.
#[derive(Debug)]
pub enum Event {
    /// A read in direction `dir` completed with `data` (empty: end of stream).
    Read { dir: Direction, data: Vec<u8> },
    /// A read or a write in direction `dir` failed.
    Failed { dir: Direction },
    /// The window ticker fired; the queue depths probed on each connection.
    Tick { server_queue: Result<u64, ProbeError>, client_queue: Result<u64, ProbeError> },
}

/// What the relay loop must do next.
#[derive(Debug)]
pub enum Action {
    /// Write all of `data` to the destination of direction `dir`.
    Forward { dir: Direction, data: Vec<u8> },
    /// Emit one diagnostic record.
    Report(QueueReport),
    /// End the session, release both connections, exit.
    Stop(Termination),
    /// Nothing: the session has already ended.
    Ignore,
}

/// The two states of a session; `Terminated` is absorbing.
#[derive(Clone, Copy, Debug, PartialEq, Eq, Structural)]
pub enum SessionState {
    Running,
    Terminated(Termination),
}

/// Settings of a relay, in bytes per one-second window.
#[derive(Clone, Copy, Debug, PartialEq, Eq, Structural)]
pub struct RelayConfig {
    pub download_limit: u64,
    pub upload_limit: u64,
    /// Also cap the receive buffer of the upstream connection at setup.
    pub limit_server_recv_window: bool,
}

impl RelayConfig {
    /// The receive buffer size to set on the upstream socket, if any: the
    /// download limit, saturated at the largest size the socket takes.
    pub fn server_recv_buffer_size(&self) -> (r: Option<u32>)
        ensures
            !self.limit_server_recv_window ==> r.is_none(),
            self.limit_server_recv_window ==> r == Some(
                if self.download_limit <= u32::MAX as u64 { self.download_limit as u32 } else { u32::MAX },
            ),
    {
        if !self.limit_server_recv_window {
            None
        } else if self.download_limit <= u32::MAX as u64 {
            Some(self.download_limit as u32)
        } else {
            Some(u32::MAX)
        }
    }
}

/// The state of one relay session, owned by the relay loop alone.
#[derive(Clone, Copy, Debug, PartialEq, Eq, Structural)]
pub struct Session {
    pub budgets: BudgetTracker,
    pub state: SessionState,
}

impl Session {
    pub open spec fn wf(&self) -> bool {
        self.budgets.wf()
    }

    pub open spec fn running(&self) -> bool {
        self.state == SessionState::Running
    }

    /// The state of a session that has just been set up.
    pub open spec fn initial(cfg: RelayConfig) -> Session {
        Session {
            budgets: BudgetTracker {
                download: crate::budget::Budget::new_spec(cfg.download_limit),
                upload: crate::budget::Budget::new_spec(cfg.upload_limit),
            },
            state: SessionState::Running,
        }
    }

    /// An event can occur: a read is only started while its direction has
    /// budget left, and never asks for more than that.
    pub open spec fn eligible(&self, e: Event) -> bool {
        match e {
            Event::Read { dir, data } => self.budgets.remaining_spec(dir) > 0
                && data@.len() <= self.budgets.remaining_spec(dir),
            _ => true,
        }
    }

    /// The session after event `e`.
    pub open spec fn after(self, e: Event) -> Session {
        if !self.running() {
            self
        } else {
            match e {
                Event::Read { dir, data } => if data@.len() == 0 {
                    Session { state: SessionState::Terminated(Termination::EndOfStream), ..self }
                } else {
                    Session { budgets: self.budgets.recorded(dir, data@.len()), ..self }
                },
                Event::Failed { .. } => Session {
                    state: SessionState::Terminated(Termination::Failure(ErrorKind::SessionIo)),
                    ..self
                },
                Event::Tick { server_queue, client_queue } => {
                    let b = self.budgets.reset_spec();
                    if server_queue.is_ok() && client_queue.is_ok() {
                        Session { budgets: b, ..self }
                    } else {
                        Session {
                            budgets: b,
                            state: SessionState::Terminated(Termination::Failure(ErrorKind::Diagnostics)),
                        }
                    }
                },
            }
        }
    }

    /// The action that answers event `e`.
    pub open spec fn reaction(self, e: Event) -> Action {
        if !self.running() {
            Action::Ignore
        } else {
            match e {
                Event::Read { dir, data } => if data@.len() == 0 {
                    Action::Stop(Termination::EndOfStream)
                } else {
                    Action::Forward { dir, data }
                },
                Event::Failed { .. } => Action::Stop(Termination::Failure(ErrorKind::SessionIo)),
                Event::Tick { server_queue, client_queue } => match (server_queue, client_queue) {
                    (Ok(s), Ok(c)) => Action::Report(QueueReport { server_queue: s, client_queue: c }),
                    _ => Action::Stop(Termination::Failure(ErrorKind::Diagnostics)),
                },
            }
        }
    }

    /// A session that has just been set up: running, nothing consumed.
    pub fn new(cfg: &RelayConfig) -> (r: Session)
        ensures
            r == Session::initial(*cfg),
            r.wf(),
    {
        Session {
            budgets: BudgetTracker::new(cfg.download_limit, cfg.upload_limit),
            state: SessionState::Running,
        }
    }

    pub fn is_running(&self) -> (r: bool)
        ensures
            r == self.running(),
    {
        match self.state {
            SessionState::Running => true,
            SessionState::Terminated(_) => false,
        }
    }

    /// The most bytes the next read in direction `d` may ask for; zero means
    /// that direction must not be read until the next tick.
    pub fn read_limit(&self, d: Direction) -> (r: usize)
        requires
            self.wf(),
        ensures
            r as nat == self.budgets.remaining_spec(d),
    {
        self.budgets.remaining(d)
    }

    /// Takes one event and returns the action to perform.
    pub fn step(&mut self, e: Event) -> (a: Action)
        requires
            old(self).wf(),
            old(self).eligible(e),
        ensures
            final(self).wf(),
            *final(self) == old(self).after(e),
            a == old(self).reaction(e),
    {
        if !self.is_running() {
            return Action::Ignore;
        }
        match e {
            Event::Read { dir, data } => {
                if data.len() == 0 {
                    self.state = SessionState::Terminated(Termination::EndOfStream);
                    Action::Stop(Termination::EndOfStream)
                } else {
                    self.budgets.record(dir, data.len());
                    Action::Forward { dir, data }
                }
            },
            Event::Failed { .. } => {
                self.state = SessionState::Terminated(Termination::Failure(ErrorKind::SessionIo));
                Action::Stop(Termination::Failure(ErrorKind::SessionIo))
            },
            Event::Tick { server_queue, client_queue } => {
                self.budgets.reset();
                match (server_queue, client_queue) {
                    (Ok(s), Ok(c)) => Action::Report(QueueReport { server_queue: s, client_queue: c }),
                    _ => {
                        self.state = SessionState::Terminated(
                            Termination::Failure(ErrorKind::Diagnostics),
                        );
                        Action::Stop(Termination::Failure(ErrorKind::Diagnostics))
                    },
                }
            },
        }
    }
}

} // verus!
