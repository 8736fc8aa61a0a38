use vstd::prelude::*;

use crate::error::Error;
use crate::windows::{ConsoleSize, WindowsPty};

verus! {

/// A system resource acquired while a pseudo-console pty is opened.
#[derive(Debug, Clone, Copy, PartialEq, Eq, Structural)]
pub enum Resource {
    /// One end of an anonymous pipe.
    Pipe(isize),
    /// A pseudo-console object.
    PseudoConsole(isize),
}

/// The outcome of the last action, as reported by the caller.
#[derive(Debug, Clone, Copy, PartialEq, Eq, Structural)]
pub enum OpenEvent {
    /// A pipe was created: its read end and its write end.
    PipeCreated { read: isize, write: isize },
    /// The pseudo-console was created.
    ConsoleCreated(isize),
    /// The resource was released.
    Released,
    /// The call failed with the given error number.
    Failed(i32),
}

/// What the caller does next while a pseudo-console pty is opened.
#[derive(Debug)]
pub enum OpenAction {
    /// Create an anonymous pipe, then report `PipeCreated` or `Failed`.
    CreatePipe,
    /// Create a pseudo-console of `size` that reads `input` and writes
    /// `output`, then report `ConsoleCreated` or `Failed`.
    CreatePseudoConsole { size: ConsoleSize, input: isize, output: isize },
    /// Release the resource, then report `Released` or `Failed`.
    Release(Resource),
    /// The pty is open; it owns the resources it names.
    Finish(WindowsPty),
    /// Opening failed; every resource acquired on the way has been released.
    Fail(Error),
}

/// Where an opening stands.
#[derive(Debug, Clone, Copy, PartialEq, Eq, Structural)]
pub enum OpenStage {
    InputPipe,
    OutputPipe,
    Console,
    CloseInput,
    CloseOutput,
    Cleanup,
    Over,
}

/// The opening of a pseudo-console pty: two pipes, then a pseudo-console
/// bound to one end of each, then the release of those two ends. A failed
/// step releases what was acquired before it, one resource at a time, and
/// only then reports the error.
pub struct PtyOpener {
    stage: OpenStage,
    pty_in: Option<isize>,
    pty_out: Option<isize>,
    console: Option<isize>,
    stdin: Option<isize>,
    stdout: Option<isize>,
    error: i32,
}

/// The pipe end `h`, where there is one.
pub open spec fn pipe_seq(h: Option<isize>) -> Seq<Resource> {
    match h {
        Some(x) => seq![Resource::Pipe(x)],
        None => Seq::empty(),
    }
}

/// The pseudo-console `h`, where there is one.
pub open spec fn console_seq(h: Option<isize>) -> Seq<Resource> {
    match h {
        Some(x) => seq![Resource::PseudoConsole(x)],
        None => Seq::empty(),
    }
}

impl PtyOpener {
    pub closed spec fn stage(&self) -> OpenStage {
        self.stage
    }

    /// The error number of the step that failed, once one has.
    pub closed spec fn failure(&self) -> i32 {
        self.error
    }

    /// The resources held and not yet handed to a pty, in the order in which
    /// they are released.
    pub closed spec fn held(&self) -> Seq<Resource> {
        pipe_seq(self.pty_in) + pipe_seq(self.pty_out) + console_seq(self.console) + pipe_seq(
            self.stdin,
        ) + pipe_seq(self.stdout)
    }

    pub closed spec fn wf(&self) -> bool {
        match self.stage {
            OpenStage::InputPipe => self.held().len() == 0,
            OpenStage::OutputPipe => self.pty_in is Some && self.stdin is Some && self.pty_out is None
                && self.stdout is None && self.console is None,
            OpenStage::Console => self.pty_in is Some && self.stdin is Some && self.pty_out is Some
                && self.stdout is Some && self.console is None,
            OpenStage::CloseInput => self.pty_in is Some && self.stdin is Some && self.pty_out is Some
                && self.stdout is Some && self.console is Some,
            OpenStage::CloseOutput => self.pty_in is None && self.stdin is Some && self.pty_out is Some
                && self.stdout is Some && self.console is Some,
            OpenStage::Cleanup => self.held().len() > 0,
            OpenStage::Over => self.held().len() == 0,
        }
    }

    #[verifier::type_invariant]
    closed spec fn inv(self) -> bool {
        self.wf()
    }

    /// Whether `event` reports on the action that this opening asked for.
    pub open spec fn awaits(&self, event: OpenEvent) -> bool {
        match self.stage() {
            OpenStage::InputPipe | OpenStage::OutputPipe => event is PipeCreated || event is Failed,
            OpenStage::Console => event is ConsoleCreated || event is Failed,
            OpenStage::CloseInput | OpenStage::CloseOutput | OpenStage::Cleanup => event is Released
                || event is Failed,
            OpenStage::Over => false,
        }
    }

    /// An opening that holds nothing yet, and its first action: create the
    /// pipe that carries bytes to the terminal.
    pub fn start() -> (r: (PtyOpener, OpenAction))
        ensures
            r.0.wf(),
            r.0.stage() == OpenStage::InputPipe,
            r.0.held().len() == 0,
            r.1 is CreatePipe,
    {
        let o = PtyOpener {
            stage: OpenStage::InputPipe,
            pty_in: None,
            pty_out: None,
            console: None,
            stdin: None,
            stdout: None,
            error: 0,
        };
        assert(o.held() =~= Seq::<Resource>::empty());
        (o, OpenAction::CreatePipe)
    }

    /// Whether `event` reports on the action that this opening asked for.
    pub fn accepts(&self, event: &OpenEvent) -> (r: bool)
        ensures
            r == self.awaits(*event),
    {
        match self.stage {
            OpenStage::InputPipe | OpenStage::OutputPipe => matches!(
                event,
                OpenEvent::PipeCreated { .. } | OpenEvent::Failed(_)
            ),
            OpenStage::Console => matches!(event, OpenEvent::ConsoleCreated(_) | OpenEvent::Failed(_)),
            OpenStage::CloseInput | OpenStage::CloseOutput | OpenStage::Cleanup => matches!(
                event,
                OpenEvent::Released | OpenEvent::Failed(_)
            ),
            OpenStage::Over => false,
        }
    }

    /// Forgets the first held resource: it was released, or its release
    /// failed and is not tried again.
    fn forget_first(&mut self)
        requires
            old(self).held().len() > 0,
        ensures
            final(self).held() == old(self).held().drop_first(),
            final(self).stage == (if final(self).held().len() == 0 {
                OpenStage::Over
            } else {
                OpenStage::Cleanup
            }),
            final(self).error == old(self).error,
    {
        let ghost h = self.held();
        let (mut a, mut b, mut c, mut d, mut e) = (
            self.pty_in,
            self.pty_out,
            self.console,
            self.stdin,
            self.stdout,
        );
        if a.is_some() {
            a = None;
        } else if b.is_some() {
            b = None;
        } else if c.is_some() {
            c = None;
        } else if d.is_some() {
            d = None;
        } else {
            e = None;
        }
        let emptied = a.is_none() && b.is_none() && c.is_none() && d.is_none() && e.is_none();
        let next = PtyOpener {
            stage: if emptied {
                OpenStage::Over
            } else {
                OpenStage::Cleanup
            },
            pty_in: a,
            pty_out: b,
            console: c,
            stdin: d,
            stdout: e,
            error: self.error,
        };
        assert(next.held() =~= h.drop_first());
        *self = next;
    }

    /// The next cleanup action: release the first held resource, or, with
    /// nothing held, report the failure.
    fn clean_up(&mut self) -> (r: OpenAction)
        ensures
            final(self).held() == old(self).held(),
            final(self).error == old(self).error,
            old(self).held().len() > 0 ==> final(self).stage == OpenStage::Cleanup && r
                == OpenAction::Release(old(self).held()[0]),
            old(self).held().len() == 0 ==> final(self).stage == OpenStage::Over && r
                == OpenAction::Fail(Error::Os(old(self).error)),
    {
        let ghost h = self.held();
        if let Some(x) = self.pty_in {
            *self = PtyOpener { stage: OpenStage::Cleanup, ..*self };
            OpenAction::Release(Resource::Pipe(x))
        } else if let Some(x) = self.pty_out {
            *self = PtyOpener { stage: OpenStage::Cleanup, ..*self };
            OpenAction::Release(Resource::Pipe(x))
        } else if let Some(x) = self.console {
            *self = PtyOpener { stage: OpenStage::Cleanup, ..*self };
            OpenAction::Release(Resource::PseudoConsole(x))
        } else if let Some(x) = self.stdin {
            *self = PtyOpener { stage: OpenStage::Cleanup, ..*self };
            OpenAction::Release(Resource::Pipe(x))
        } else if let Some(x) = self.stdout {
            *self = PtyOpener { stage: OpenStage::Cleanup, ..*self };
            OpenAction::Release(Resource::Pipe(x))
        } else {
            assert(h =~= Seq::<Resource>::empty());
            *self = PtyOpener { stage: OpenStage::Over, ..*self };
            OpenAction::Fail(Error::Os(self.error))
        }
    }

    /// Takes the outcome of the last action and returns the next one.
    ///
    /// On success the two pipes are created, then the pseudo-console on the
    /// read end of the first and the write end of the second, then those two
    /// ends are released, and the pty owns the pseudo-console and the two
    /// ends that remain. A failure creates nothing more: each held resource
    /// is released in turn, and the error is reported only when nothing is
    /// held.
    pub fn step(&mut self, event: OpenEvent) -> (r: OpenAction)
        requires
            old(self).awaits(event),
        ensures
            old(self).wf(),
            final(self).wf(),
            // a failure is reported only once nothing is held
            r is Fail ==> {
                &&& final(self).held().len() == 0
                &&& final(self).stage() == OpenStage::Over
                &&& r == OpenAction::Fail(Error::Os(final(self).failure()))
            },
            r is Release ==> final(self).held().len() > 0 && r == OpenAction::Release(
                final(self).held()[0],
            ),
            r is Finish ==> final(self).held().len() == 0 && final(self).stage() == OpenStage::Over,
            // after a failure: release what is held, one at a time, then fail
            event is Failed || old(self).stage() == OpenStage::Cleanup ==> if final(self).held().len()
                > 0 {
                r == OpenAction::Release(final(self).held()[0])
            } else {
                r == OpenAction::Fail(Error::Os(final(self).failure()))
            },
            event is Failed && old(self).stage() != OpenStage::Cleanup ==> final(self).failure()
                == event->Failed_0,
            old(self).stage() == OpenStage::Cleanup ==> final(self).failure() == old(self).failure(),
            event is Failed && old(self).stage() is InputPipe ==> final(self).held() == old(self).held(),
            event is Failed && old(self).stage() is OutputPipe ==> final(self).held() == old(self).held(),
            event is Failed && old(self).stage() is Console ==> final(self).held() == old(self).held(),
            // a release that was asked for, whether it succeeded or not
            old(self).stage() is CloseInput || old(self).stage() is Cleanup || (old(self).stage() is CloseOutput
                && event is Failed) ==> final(self).held() == old(self).held().drop_first(),
            // the steps of a successful opening
            old(self).stage() is InputPipe ==> (event matches OpenEvent::PipeCreated { read, write }
                ==> {
                &&& r is CreatePipe
                &&& final(self).stage() == OpenStage::OutputPipe
                &&& final(self).held() == seq![Resource::Pipe(read), Resource::Pipe(write)]
            }),
            old(self).stage() is OutputPipe ==> (event matches OpenEvent::PipeCreated { read, write }
                ==> {
                &&& final(self).stage() == OpenStage::Console
                &&& final(self).held() == seq![
                    old(self).held()[0],
                    Resource::Pipe(write),
                    old(self).held()[1],
                    Resource::Pipe(read),
                ]
                &&& r == (OpenAction::CreatePseudoConsole {
                    size: ConsoleSize { x: 80, y: 24 },
                    input: old(self).held()[0]->Pipe_0,
                    output: write,
                })
            }),
            old(self).stage() is Console ==> (event matches OpenEvent::ConsoleCreated(c) ==> {
                &&& final(self).stage() == OpenStage::CloseInput
                &&& final(self).held() == seq![
                    old(self).held()[0],
                    old(self).held()[1],
                    Resource::PseudoConsole(c),
                    old(self).held()[2],
                    old(self).held()[3],
                ]
                &&& r == OpenAction::Release(old(self).held()[0])
            }),
            old(self).stage() is CloseInput && event is Released ==> {
                &&& final(self).stage() == OpenStage::CloseOutput
                &&& r == OpenAction::Release(old(self).held()[1])
            },
            old(self).stage() is CloseOutput && event is Released ==> (r matches OpenAction::Finish(p)
                && {
                &&& p.console_handle() == old(self).held()[1]->PseudoConsole_0
                &&& p.input_handle() == old(self).held()[2]->Pipe_0
                &&& p.output_handle() == old(self).held()[3]->Pipe_0
            }),
    {
        proof {
            use_type_invariant(&*self);
        }
        let ghost h = self.held();
        match (self.stage, event) {
            (OpenStage::Cleanup, _) => {
                self.forget_first();
                self.clean_up()
            },
            (OpenStage::CloseInput, OpenEvent::Failed(e)) | (
                OpenStage::CloseOutput,
                OpenEvent::Failed(e),
            ) => {
                *self = PtyOpener { error: e, ..*self };
                self.forget_first();
                self.clean_up()
            },
            (_, OpenEvent::Failed(e)) => {
                *self = PtyOpener { error: e, ..*self };
                self.clean_up()
            },
            (OpenStage::InputPipe, OpenEvent::PipeCreated { read, write }) => {
                *self = PtyOpener {
                    stage: OpenStage::OutputPipe,
                    pty_in: Some(read),
                    stdin: Some(write),
                    ..*self
                };
                assert(self.held() =~= seq![Resource::Pipe(read), Resource::Pipe(write)]);
                OpenAction::CreatePipe
            },
            (OpenStage::OutputPipe, OpenEvent::PipeCreated { read, write }) => {
                let input = self.pty_in.unwrap();
                *self = PtyOpener {
                    stage: OpenStage::Console,
                    stdout: Some(read),
                    pty_out: Some(write),
                    ..*self
                };
                assert(self.held() =~= seq![h[0], Resource::Pipe(write), h[1], Resource::Pipe(read)]);
                OpenAction::CreatePseudoConsole {
                    size: WindowsPty::initial_size(),
                    input,
                    output: write,
                }
            },
            (OpenStage::Console, OpenEvent::ConsoleCreated(c)) => {
                *self = PtyOpener { stage: OpenStage::CloseInput, console: Some(c), ..*self };
                assert(self.held() =~= seq![h[0], h[1], Resource::PseudoConsole(c), h[2], h[3]]);
                OpenAction::Release(Resource::Pipe(self.pty_in.unwrap()))
            },
            (OpenStage::CloseInput, _) => {
                *self = PtyOpener { stage: OpenStage::CloseOutput, pty_in: None, ..*self };
                assert(self.held() =~= h.drop_first());
                OpenAction::Release(Resource::Pipe(self.pty_out.unwrap()))
            },
            (_, _) => {
                let pty = WindowsPty::from_handles(
                    self.console.unwrap(),
                    self.stdin.unwrap(),
                    self.stdout.unwrap(),
                );
                *self = PtyOpener {
                    stage: OpenStage::Over,
                    pty_out: None,
                    console: None,
                    stdin: None,
                    stdout: None,
                    ..*self
                };
                assert(self.held() =~= Seq::<Resource>::empty());
                OpenAction::Finish(pty)
            },
        }
    }
}

} // verus!
