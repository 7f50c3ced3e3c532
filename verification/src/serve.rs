//! Answering the requests of others for our data.
use vstd::prelude::*;
use crate::context::{plan_view, ClipboardContext, ContextView, ManagerHandoverState};
use crate::error::{into_unknown, unit_result, Error, ErrorView};
use crate::protocol::{request_view, Event, Reply, ReplyView, Request, RequestView};

verus! {

/// What the server of requests is at.
#[derive(Debug)]
pub enum ServePhase {
    Waiting,
    /// A request is being answered; this is still to be done for it.
    Answering(Vec<Request>),
    /// The end of the handover is being reported.
    Notifying,
    Finished(Result<(), Error>),
}

/// The mathematical value of a [`ServePhase`].
pub enum ServePhaseView {
    Waiting,
    Answering(Seq<RequestView>),
    Notifying,
    Finished(Result<(), ErrorView>),
}

impl View for ServePhase {
    type V = ServePhaseView;

    open spec fn view(&self) -> ServePhaseView {
        match self {
            ServePhase::Waiting => ServePhaseView::Waiting,
            ServePhase::Answering(plan) => ServePhaseView::Answering(plan_view(plan@)),
            ServePhase::Notifying => ServePhaseView::Notifying,
            ServePhase::Finished(result) => ServePhaseView::Finished(unit_result(*result)),
        }
    }
}

/// Whether a request is one of those that an answer is made of. All that comes of
/// them is that they are done, or fail.
pub open spec fn is_command(request: RequestView) -> bool {
    ||| request is ChangeProperty8
    ||| request is ChangeProperty32
    ||| request is SendSelectionNotify
    ||| request is Flush
}

/// Whether all requests are of that kind.
pub open spec fn all_commands(plan: Seq<RequestView>) -> bool {
    forall|i: int| 0 <= i < plan.len() ==> is_command(#[trigger] plan[i])
}

/// The server of requests.
#[derive(Debug)]
pub struct Server {
    /// Whether a request was answered while the handover was in progress.
    pub written: bool,
    /// Whether the clipboard manager spoke up while the handover was in
    /// progress.
    pub notified: bool,
    pub phase: ServePhase,
}

/// The mathematical value of a [`Server`].
pub struct ServerView {
    pub written: bool,
    pub notified: bool,
    pub phase: ServePhaseView,
}

impl View for Server {
    type V = ServerView;

    open spec fn view(&self) -> ServerView {
        ServerView { written: self.written, notified: self.notified, phase: self.phase@ }
    }
}

impl ServerView {
    /// A server that is about to begin.
    pub open spec fn start() -> ServerView {
        ServerView { written: false, notified: false, phase: ServePhaseView::Waiting }
    }

    /// What is still to be done for a request is something, and nothing is to be
    /// learned from it.
    pub open spec fn well_formed(self) -> bool {
        self.phase matches ServePhaseView::Answering(plan) ==> plan.len() > 0 && all_commands(
            plan,
        )
    }

    /// What has to be done next.
    pub open spec fn pending(self) -> Option<RequestView> {
        match self.phase {
            ServePhaseView::Waiting => Some(RequestView::WaitForEvent),
            ServePhaseView::Answering(plan) => Some(plan.first()),
            ServePhaseView::Notifying => Some(RequestView::NotifyHandover),
            ServePhaseView::Finished(_) => None,
        }
    }

    /// The same server in another phase.
    pub open spec fn at(self, phase: ServePhaseView) -> ServerView {
        ServerView { phase, ..self }
    }

    /// The server after a request was answered. In a handover that is the one
    /// half; if the manager has spoken up, the handover is finished.
    pub open spec fn after_answer(self, context: ContextView) -> ServerView {
        if context.handover_state == ManagerHandoverState::InProgress {
            ServerView {
                written: true,
                phase: if self.notified {
                    ServePhaseView::Notifying
                } else {
                    ServePhaseView::Waiting
                },
                ..self
            }
        } else {
            self.at(ServePhaseView::Waiting)
        }
    }

    /// The server after the clipboard manager spoke up. In a handover that is
    /// the other half; if a request was answered, the handover is finished.
    pub open spec fn after_manager(self, context: ContextView) -> ServerView {
        if context.handover_state == ManagerHandoverState::InProgress {
            ServerView {
                notified: true,
                phase: if self.written {
                    ServePhaseView::Notifying
                } else {
                    ServePhaseView::Waiting
                },
                ..self
            }
        } else {
            self.at(ServePhaseView::Waiting)
        }
    }

    /// The server with this still to be done for a request.
    pub open spec fn answering(self, context: ContextView, plan: Seq<RequestView>) -> ServerView {
        if plan.len() == 0 {
            self.after_answer(context)
        } else {
            self.at(ServePhaseView::Answering(plan))
        }
    }

    /// The server after an event.
    pub open spec fn after_event(self, context: ContextView, event: Event) -> ServerView {
        match event {
            Event::DestroyNotify => self.at(ServePhaseView::Finished(Ok(()))),
            Event::SelectionRequest(event) => self.answering(context, context.answer(event)),
            Event::SelectionNotify(event) => if event.selection
                == context.atoms.CLIPBOARD_MANAGER {
                self.after_manager(context)
            } else {
                self
            },
            _ => self,
        }
    }

    /// The server after a reply. A reply to something else changes nothing.
    pub open spec fn next(self, context: ContextView, reply: ReplyView) -> ServerView {
        match (self.phase, reply) {
            (ServePhaseView::Waiting, ReplyView::Event(Some(event))) => self.after_event(
                context,
                event,
            ),
            (ServePhaseView::Waiting, ReplyView::Failed(description)) => self.at(
                ServePhaseView::Finished(Err(ErrorView::Unknown { description })),
            ),
            (ServePhaseView::Answering(plan), ReplyView::Done) => self.answering(
                context,
                plan.drop_first(),
            ),
            (ServePhaseView::Answering(_), ReplyView::Failed(description)) => self.at(
                ServePhaseView::Finished(
                    Err(
                        ErrorView::Unknown {
                            description: ErrorView::Unknown { description }.text(),
                        },
                    ),
                ),
            ),
            (ServePhaseView::Notifying, ReplyView::Done) => self.at(ServePhaseView::Waiting),
            _ => self,
        }
    }

    /// The clipboard after a reply. Our data goes when somebody else takes the
    /// clipboard, a handover finishes when both its halves are done, and when the
    /// serving ends, requests are no longer answered.
    pub open spec fn context_after(self, context: ContextView, reply: ReplyView) -> ContextView {
        let cleared = self.phase is Waiting && (reply matches ReplyView::Event(
            Some(Event::SelectionClear(event)),
        ) && event.selection == context.atoms.CLIPBOARD);
        let finished = !(self.phase is Notifying) && self.next(context, reply).phase is Notifying;
        let ended = !(self.phase is Finished) && self.next(context, reply).phase is Finished;
        ContextView {
            data: if cleared {
                None
            } else {
                context.data
            },
            handover_state: if finished {
                ManagerHandoverState::Finished
            } else {
                context.handover_state
            },
            serve_stopped: context.serve_stopped || ended,
            ..context
        }
    }
}

/// Starts to serve the requests of others.
pub fn serve_requests() -> (server: Server)
    ensures
        server@ == ServerView::start(),
        server@.well_formed(),
{
    Server { written: false, notified: false, phase: ServePhase::Waiting }
}

impl Server {
    /// What has to be done next; `None` once the serving is over.
    pub fn request(&self) -> (request: Option<Request>)
        requires
            self@.well_formed(),
        ensures
            request_view(request) == self@.pending(),
    {
        match &self.phase {
            ServePhase::Waiting => Some(Request::WaitForEvent),
            ServePhase::Answering(plan) => Some(plan[0].clone()),
            ServePhase::Notifying => Some(Request::NotifyHandover),
            ServePhase::Finished(_) => None,
        }
    }

    /// Ends the handover, and has it reported.
    fn handover_finished(&mut self, context: &mut ClipboardContext)
        ensures
            final(self)@ == old(self)@.at(ServePhaseView::Notifying),
            final(context)@ == (ContextView {
                handover_state: ManagerHandoverState::Finished,
                ..old(context)@
            }),
    {
        context.handover_state = ManagerHandoverState::Finished;
        self.phase = ServePhase::Notifying;
    }

    /// Takes note that a request was answered.
    fn request_answered(&mut self, context: &mut ClipboardContext)
        ensures
            final(self)@ == old(self)@.after_answer(old(context)@),
            final(context)@ == (ContextView {
                handover_state: if old(self)@.after_answer(old(context)@).phase is Notifying {
                    ManagerHandoverState::Finished
                } else {
                    old(context)@.handover_state
                },
                ..old(context)@
            }),
    {
        self.phase = ServePhase::Waiting;
        if context.handover_state == ManagerHandoverState::InProgress {
            self.written = true;
            // If we have written and were notified, we are done.
            if self.notified {
                self.handover_finished(context);
            }
        }
    }

    /// Takes note that the clipboard manager spoke up.
    fn manager_notified(&mut self, context: &mut ClipboardContext)
        ensures
            final(self)@ == old(self)@.after_manager(old(context)@),
            final(context)@ == (ContextView {
                handover_state: if old(self)@.after_manager(old(context)@).phase is Notifying {
                    ManagerHandoverState::Finished
                } else {
                    old(context)@.handover_state
                },
                ..old(context)@
            }),
    {
        self.phase = ServePhase::Waiting;
        if context.handover_state == ManagerHandoverState::InProgress {
            self.notified = true;
            // One would think that a property of `NONE` ends the handover too,
            // because it indicates failure. But some managers send that first,
            // and a valid request after it.
            if self.written {
                self.handover_finished(context);
            }
        }
    }

    /// Goes on with the answer to a request.
    fn go_on(&mut self, context: &mut ClipboardContext, plan: Vec<Request>)
        requires
            all_commands(plan_view(plan@)),
        ensures
            final(self)@ == old(self)@.answering(old(context)@, plan_view(plan@)),
            final(self)@.well_formed(),
            final(context)@ == (ContextView {
                handover_state: if old(self)@.answering(
                    old(context)@,
                    plan_view(plan@),
                ).phase is Notifying {
                    ManagerHandoverState::Finished
                } else {
                    old(context)@.handover_state
                },
                ..old(context)@
            }),
    {
        if plan.len() == 0 {
            self.request_answered(context);
        } else {
            self.phase = ServePhase::Answering(plan);
        }
    }

    /// Takes the reply to the request.
    pub fn step(&mut self, context: &mut ClipboardContext, reply: Reply)
        requires
            old(self)@.well_formed(),
        ensures
            final(self)@ == old(self)@.next(old(context)@, reply@),
            final(self)@.well_formed(),
            final(context)@ == old(self)@.context_after(old(context)@, reply@),
    {
        let mut phase = ServePhase::Waiting;
        std::mem::swap(&mut phase, &mut self.phase);
        match (phase, reply) {
            (ServePhase::Waiting, Reply::Event(Some(event))) => match event {
                Event::DestroyNotify => {
                    // Our window is being destroyed.
                    self.phase = ServePhase::Finished(Ok(()));
                    context.stop_serving();
                },
                Event::SelectionClear(event) => {
                    // Somebody else has new content in the clipboard.
                    if event.selection == context.atoms.CLIPBOARD {
                        context.data = None;
                    }
                },
                Event::SelectionRequest(event) => {
                    let plan = context.handle_selection_request(&event);
                    self.go_on(context, plan);
                },
                Event::SelectionNotify(event) => {
                    // We don't read the clipboard here, so this must come from
                    // the clipboard manager.
                    if event.selection == context.atoms.CLIPBOARD_MANAGER {
                        self.manager_notified(context);
                    }
                },
                _ => {},
            },
            (ServePhase::Waiting, Reply::Failed(description)) => {
                self.phase = ServePhase::Finished(Err(into_unknown(description)));
                context.stop_serving();
            },
            (ServePhase::Answering(mut plan), Reply::Done) => {
                let ghost before = plan@;
                let _ = plan.remove(0);
                assert(plan_view(plan@) == plan_view(before).drop_first());
                self.go_on(context, plan);
            },
            (ServePhase::Answering(_), Reply::Failed(description)) => {
                let error = into_unknown(description);
                self.phase = ServePhase::Finished(Err(into_unknown(error.describe())));
                context.stop_serving();
            },
            (ServePhase::Notifying, Reply::Done) => {
                self.phase = ServePhase::Waiting;
            },
            (phase, _) => {
                self.phase = phase;
            },
        }
    }
}

} // verus!
