use vstd::prelude::*;
use crate::config::{ResolverConfig, ResolverConfigView};
use crate::error::{DnsError, DnsErrorView};
use crate::ifindex::{index_result, parse_ifindex};
use crate::link::{add_calls, add_plan, calls_view, remove_calls, remove_plan, CallView, DaemonCall};
use crate::LinuxDns;

verus! {

/// Which of the two operations a session carries out.
#[derive(Clone, Copy, Debug, PartialEq, Eq, Structural)]
pub enum Operation {
    /// Install a configuration on its link.
    Add,
    /// Revert the configuration's link.
    Remove,
}

/// How far a session has come.
#[derive(Clone, Copy, Debug, PartialEq, Eq, Structural)]
pub enum Stage {
    /// Waiting for the system bus connection.
    Connect,
    /// Waiting for the resolver daemon's manager object.
    Proxy,
    /// Waiting for the text of the interface's index file.
    Index,
    /// Waiting for the outcome of a daemon call.
    Calls,
    /// Waiting for the revert made after a failed call.
    Cleanup,
    /// Done; the outcome stands.
    Finished,
}

/// A failed bus or daemon operation: the D-Bus error name, where there is
/// one, and a human-readable detail.
#[derive(Clone, Debug, PartialEq, Eq)]
pub struct Failure {
    pub name: Option<String>,
    pub detail: String,
}

pub ghost struct FailureView {
    pub name: Option<Seq<char>>,
    pub detail: Seq<char>,
}

impl View for Failure {
    type V = FailureView;

    open spec fn view(&self) -> FailureView {
        FailureView {
            name: match self.name {
                Some(n) => Some(n@),
                None => None,
            },
            detail: self.detail@,
        }
    }
}

/// What came of the last action.
#[derive(Clone, Debug, PartialEq, Eq)]
pub enum Event {
    /// The action succeeded.
    Succeeded,
    /// The file was read; its text.
    Read(String),
    /// The action failed.
    Failed(Failure),
}

pub ghost enum EventView {
    Succeeded,
    Read(Seq<char>),
    Failed(FailureView),
}

impl View for Event {
    type V = EventView;

    open spec fn view(&self) -> EventView {
        match self {
            Event::Succeeded => EventView::Succeeded,
            Event::Read(c) => EventView::Read(c@),
            Event::Failed(f) => EventView::Failed(f@),
        }
    }
}

/// What the caller is to do next, and report back as an `Event`.
#[derive(Debug, PartialEq, Eq)]
pub enum Action {
    /// Open a connection to the system bus.
    Connect,
    /// Obtain the resolver daemon's manager object.
    CreateProxy,
    /// Read `/sys/class/net/<name>/ifindex` for the named interface.
    ReadIfindex(String),
    /// Make this call on the manager object.
    Call(DaemonCall),
    /// Stop, with this outcome.
    Finish(Result<(), DnsError>),
}

pub ghost enum ActionView {
    Connect,
    CreateProxy,
    ReadIfindex(Seq<char>),
    Call(CallView),
    Finish(Result<(), DnsErrorView>),
}

impl View for Action {
    type V = ActionView;

    open spec fn view(&self) -> ActionView {
        match self {
            Action::Connect => ActionView::Connect,
            Action::CreateProxy => ActionView::CreateProxy,
            Action::ReadIfindex(n) => ActionView::ReadIfindex(n@),
            Action::Call(c) => ActionView::Call(c@),
            Action::Finish(Ok(())) => ActionView::Finish(Ok(())),
            Action::Finish(Err(e)) => ActionView::Finish(Err(e@)),
        }
    }
}

/// One run of `add` or `remove` against the resolver daemon.
pub struct Session {
    op: Operation,
    config: ResolverConfig,
    stage: Stage,
    ifindex: i32,
    plan: Vec<DaemonCall>,
    done: usize,
    error: Option<DnsError>,
}

pub ghost struct SessionView {
    pub op: Operation,
    pub config: ResolverConfigView,
    pub stage: Stage,
    pub ifindex: i32,
    pub done: int,
    pub error: Option<DnsErrorView>,
}

impl View for Session {
    type V = SessionView;

    closed spec fn view(&self) -> SessionView {
        SessionView {
            op: self.op,
            config: self.config@,
            stage: self.stage,
            ifindex: self.ifindex,
            done: self.done as int,
            error: match self.error {
                Some(e) => Some(e@),
                None => None,
            },
        }
    }
}

/// The daemon calls that `op` makes for `cfg` on link `i`.
pub open spec fn plan(op: Operation, cfg: ResolverConfigView, i: i32) -> Seq<CallView> {
    match op {
        Operation::Add => add_plan(cfg, i),
        Operation::Remove => remove_plan(i),
    }
}

/// D-Bus error names that mean the caller lacks the authority to act.
pub open spec fn is_authorization_failure(f: FailureView) -> bool {
    match f.name {
        Some(n) => n == "org.freedesktop.DBus.Error.AccessDenied"@ || n
            == "org.freedesktop.DBus.Error.AuthFailed"@ || n
            == "org.freedesktop.DBus.Error.InteractiveAuthorizationRequired"@,
        None => false,
    }
}

/// The error for failure `f`: `PermissionDenied` where it is one of authority,
/// else `otherwise`.
pub open spec fn failure_error(f: FailureView, otherwise: DnsErrorView) -> DnsErrorView {
    if is_authorization_failure(f) {
        DnsErrorView::PermissionDenied
    } else {
        otherwise
    }
}

/// The error kind of a rejected daemon call.
pub open spec fn call_error(c: CallView, detail: Seq<char>) -> DnsErrorView {
    match c {
        CallView::SetLinkDns(_, _) => DnsErrorView::SetLinkDns(detail),
        CallView::SetLinkDnsOverTls(_, _) => DnsErrorView::SetLinkDns(detail),
        CallView::SetLinkDomains(_, _) => DnsErrorView::SetLinkDomains(detail),
        CallView::RevertLink(_) => DnsErrorView::RevertLink(detail),
    }
}

pub open spec fn outcome(s: SessionView) -> Result<(), DnsErrorView> {
    match s.error {
        Some(e) => Err(e),
        None => Ok(()),
    }
}

pub open spec fn finish(s: SessionView, r: Result<(), DnsErrorView>) -> (SessionView, ActionView) {
    (
        SessionView {
            stage: Stage::Finished,
            error: match r {
                Ok(_) => None,
                Err(e) => Some(e),
            },
            ..s
        },
        ActionView::Finish(r),
    )
}

/// The first state and action of a session; a host without an adapter
/// finishes at once with `Unsupported`.
pub open spec fn start(op: Operation, cfg: ResolverConfigView, has_adapter: bool) -> (
    SessionView,
    ActionView,
) {
    let s = SessionView { op, config: cfg, stage: Stage::Connect, ifindex: 0, done: 0, error: None };
    if has_adapter {
        (s, ActionView::Connect)
    } else {
        finish(s, Err(DnsErrorView::Unsupported))
    }
}

/// The protocol: connect, obtain the manager, read the interface index, then
/// make the plan's calls in order. A failed call of an add is followed by a
/// best-effort revert of the link, whose outcome is not reported: the session
/// finishes with the call's own error.
pub open spec fn next(s: SessionView, e: EventView) -> (SessionView, ActionView) {
    match s.stage {
        Stage::Connect => match e {
            EventView::Failed(f) => finish(
                s,
                Err(failure_error(f, DnsErrorView::IpcConnect(f.detail))),
            ),
            _ => (SessionView { stage: Stage::Proxy, ..s }, ActionView::CreateProxy),
        },
        Stage::Proxy => match e {
            EventView::Failed(f) => finish(
                s,
                Err(failure_error(f, DnsErrorView::ManagerProxy(f.detail))),
            ),
            _ => (
                SessionView { stage: Stage::Index, ..s },
                ActionView::ReadIfindex(s.config.interface),
            ),
        },
        Stage::Index => match e {
            EventView::Failed(f) => finish(
                s,
                Err(DnsErrorView::InterfaceIndex(s.config.interface, f.detail)),
            ),
            _ => {
                let content = match e {
                    EventView::Read(c) => c,
                    _ => Seq::empty(),
                };
                match index_result(s.config.interface, content) {
                    Ok(i) => (
                        SessionView { stage: Stage::Calls, ifindex: i, done: 0, ..s },
                        ActionView::Call(plan(s.op, s.config, i)[0]),
                    ),
                    Err(err) => finish(s, Err(err)),
                }
            },
        },
        Stage::Calls => {
            let p = plan(s.op, s.config, s.ifindex);
            match e {
                EventView::Failed(f) => {
                    let err = failure_error(f, call_error(p[s.done], f.detail));
                    match s.op {
                        Operation::Add => (
                            SessionView { stage: Stage::Cleanup, error: Some(err), ..s },
                            ActionView::Call(CallView::RevertLink(s.ifindex)),
                        ),
                        Operation::Remove => finish(s, Err(err)),
                    }
                },
                _ => if s.done + 1 < p.len() {
                    (SessionView { done: s.done + 1, ..s }, ActionView::Call(p[s.done + 1]))
                } else {
                    finish(s, Ok(()))
                },
            }
        },
        Stage::Cleanup => (SessionView { stage: Stage::Finished, ..s }, ActionView::Finish(outcome(s))),
        Stage::Finished => (s, ActionView::Finish(outcome(s))),
    }
}

impl Session {
    /// The session's invariant: in the call stage the stored calls are the
    /// plan and one of them is outstanding; a cleanup holds the error to report.
    pub closed spec fn wf(&self) -> bool {
        &&& (self.stage == Stage::Calls ==> {
            &&& calls_view(self.plan@) == plan(self.op, self.config@, self.ifindex)
            &&& self.done < self.plan@.len()
        })
        &&& (self.stage == Stage::Cleanup ==> self.error is Some)
    }

    /// Where the session stands.
    pub fn stage(&self) -> (r: Stage)
        ensures
            r == self@.stage,
    {
        self.stage
    }

    fn finish(&mut self, r: Result<(), DnsError>) -> (a: Action)
        ensures
            (final(self)@, a@) == finish(old(self)@, match r {
                Ok(_) => Ok(()),
                Err(e) => Err(e@),
            }),
            final(self).wf(),
    {
        self.stage = Stage::Finished;
        match r {
            Ok(()) => {
                self.error = None;
                Action::Finish(Ok(()))
            },
            Err(e) => {
                self.error = Some(e.duplicate());
                Action::Finish(Err(e))
            },
        }
    }

    fn outcome(&self) -> (r: Result<(), DnsError>)
        ensures
            match (r, outcome(self@)) {
                (Ok(_), Ok(_)) => true,
                (Err(e), Err(f)) => e@ == f,
                _ => false,
            },
    {
        match &self.error {
            Some(e) => Err(e.duplicate()),
            None => Ok(()),
        }
    }

    /// Hands the session what came of its last action; returns the next one.
    pub fn step(&mut self, event: Event) -> (a: Action)
        requires
            old(self).wf(),
        ensures
            final(self).wf(),
            (final(self)@, a@) == next(old(self)@, event@),
    {
        match self.stage {
            Stage::Connect => match event {
                Event::Failed(f) => {
                    let err = classify(&f, DnsError::IpcConnect(f.detail.clone()));
                    self.finish(Err(err))
                },
                _ => {
                    self.stage = Stage::Proxy;
                    Action::CreateProxy
                },
            },
            Stage::Proxy => match event {
                Event::Failed(f) => {
                    let err = classify(&f, DnsError::ManagerProxy(f.detail.clone()));
                    self.finish(Err(err))
                },
                _ => {
                    self.stage = Stage::Index;
                    Action::ReadIfindex(self.config.interface.clone())
                },
            },
            Stage::Index => {
                let content = match event {
                    Event::Failed(f) => {
                        let err = DnsError::InterfaceIndex(self.config.interface.clone(), f.detail);
                        return self.finish(Err(err));
                    },
                    Event::Read(c) => c,
                    Event::Succeeded => String::new(),
                };
                match parse_ifindex(self.config.interface.as_str(), content.as_str()) {
                    Ok(i) => {
                        let calls = match self.op {
                            Operation::Add => add_calls(&self.config, i),
                            Operation::Remove => remove_calls(i),
                        };
                        assert(calls_view(calls@).len() == calls@.len());
                        assert(calls@.len() > 0);
                        self.stage = Stage::Calls;
                        self.ifindex = i;
                        self.done = 0;
                        self.plan = calls;
                        Action::Call(self.plan[0].duplicate())
                    },
                    Err(err) => self.finish(Err(err)),
                }
            },
            Stage::Calls => match event {
                Event::Failed(f) => {
                    let err = classify(&f, call_error_of(&self.plan[self.done], f.detail.clone()));
                    match self.op {
                        Operation::Add => {
                            self.stage = Stage::Cleanup;
                            self.error = Some(err);
                            Action::Call(DaemonCall::RevertLink(self.ifindex))
                        },
                        Operation::Remove => self.finish(Err(err)),
                    }
                },
                _ => {
                    if self.done < self.plan.len() - 1 {
                        self.done = self.done + 1;
                        Action::Call(self.plan[self.done].duplicate())
                    } else {
                        self.finish(Ok(()))
                    }
                },
            },
            Stage::Cleanup => {
                self.stage = Stage::Finished;
                Action::Finish(self.outcome())
            },
            Stage::Finished => Action::Finish(self.outcome()),
        }
    }
}

impl LinuxDns {
    /// Starts an add or a remove of `cfg`. Where `has_adapter` is false the
    /// host has no resolver daemon to drive: the session finishes at once with
    /// `Unsupported` and asks for nothing.
    pub fn begin(op: Operation, cfg: &ResolverConfig, has_adapter: bool) -> (r: (Session, Action))
        ensures
            r.0.wf(),
            (r.0@, r.1@) == start(op, cfg@, has_adapter),
    {
        let s = Session {
            op,
            config: cfg.duplicate(),
            stage: Stage::Connect,
            ifindex: 0,
            plan: Vec::new(),
            done: 0,
            error: None,
        };
        if has_adapter {
            (s, Action::Connect)
        } else {
            let mut s = s;
            let a = s.finish(Err(DnsError::Unsupported));
            (s, a)
        }
    }
}

/// On a host without an adapter both operations finish with `Unsupported`
/// before asking for anything, and stay finished whatever is reported.
pub proof fn lemma_unsupported(op: Operation, cfg: ResolverConfigView, e: EventView)
    ensures
        start(op, cfg, false).1 == ActionView::Finish(Err(DnsErrorView::Unsupported)),
        next(start(op, cfg, false).0, e) == (
            start(op, cfg, false).0,
            ActionView::Finish(Err(DnsErrorView::Unsupported)),
        ),
{
}

/// An interface whose index file cannot be read ends the session with
/// `InterfaceIndex` for that interface, before any daemon call.
pub proof fn lemma_unknown_interface(s: SessionView, f: FailureView)
    requires
        s.stage == Stage::Index,
    ensures
        next(s, EventView::Failed(f)).1 == ActionView::Finish(
            Err(DnsErrorView::InterfaceIndex(s.config.interface, f.detail)),
        ),
        next(s, EventView::Failed(f)).0.stage == Stage::Finished,
{
}

/// A failed daemon call of an add is followed by a revert of the link, and
/// the add then reports the failed call's own error, whatever the revert gave.
pub proof fn lemma_failed_add_reverts(s: SessionView, f: FailureView, e: EventView)
    requires
        s.stage == Stage::Calls,
        s.op == Operation::Add,
        0 <= s.done < plan(s.op, s.config, s.ifindex).len(),
    ensures
        next(s, EventView::Failed(f)).1 == ActionView::Call(CallView::RevertLink(s.ifindex)),
        next(next(s, EventView::Failed(f)).0, e).1 == ActionView::Finish(
            Err(failure_error(f, call_error(plan(s.op, s.config, s.ifindex)[s.done], f.detail))),
        ),
{
}

/// When everything succeeds, an add connects, obtains the manager, reads the
/// index, makes exactly the calls of `add_plan`, in order, and finishes `Ok`.
pub proof fn lemma_add_run(cfg: ResolverConfigView, content: Seq<char>, i: i32)
    requires
        index_result(cfg.interface, content) == Ok::<i32, DnsErrorView>(i),
    ensures
        ({
            let s0 = start(Operation::Add, cfg, true);
            let s1 = next(s0.0, EventView::Succeeded);
            let s2 = next(s1.0, EventView::Succeeded);
            let s3 = next(s2.0, EventView::Read(content));
            let s4 = next(s3.0, EventView::Succeeded);
            let s5 = next(s4.0, EventView::Succeeded);
            let s6 = next(s5.0, EventView::Succeeded);
            &&& s0.1 == ActionView::Connect
            &&& s1.1 == ActionView::CreateProxy
            &&& s2.1 == ActionView::ReadIfindex(cfg.interface)
            &&& s3.1 == ActionView::Call(add_plan(cfg, i)[0])
            &&& s4.1 == ActionView::Call(add_plan(cfg, i)[1])
            &&& s5.1 == ActionView::Call(add_plan(cfg, i)[2])
            &&& s6.1 == ActionView::Finish(Ok(()))
        }),
{
}

/// When everything succeeds, a remove reverts the link and finishes `Ok`,
/// whether or not the link was ever configured.
pub proof fn lemma_remove_run(cfg: ResolverConfigView, content: Seq<char>, i: i32)
    requires
        index_result(cfg.interface, content) == Ok::<i32, DnsErrorView>(i),
    ensures
        ({
            let s0 = start(Operation::Remove, cfg, true);
            let s1 = next(s0.0, EventView::Succeeded);
            let s2 = next(s1.0, EventView::Succeeded);
            let s3 = next(s2.0, EventView::Read(content));
            let s4 = next(s3.0, EventView::Succeeded);
            &&& s3.1 == ActionView::Call(CallView::RevertLink(i))
            &&& remove_plan(i) == seq![CallView::RevertLink(i)]
            &&& s4.1 == ActionView::Finish(Ok(()))
        }),
{
}

fn is_authorization_failure_exec(f: &Failure) -> (r: bool)
    ensures
        r == is_authorization_failure(f@),
{
    match &f.name {
        Some(n) => {
            let denied = "org.freedesktop.DBus.Error.AccessDenied".to_owned();
            let auth = "org.freedesktop.DBus.Error.AuthFailed".to_owned();
            let interactive = "org.freedesktop.DBus.Error.InteractiveAuthorizationRequired".to_owned();
            n.eq(&denied) || n.eq(&auth) || n.eq(&interactive)
        },
        None => false,
    }
}

fn classify(f: &Failure, otherwise: DnsError) -> (r: DnsError)
    ensures
        r@ == failure_error(f@, otherwise@),
{
    if is_authorization_failure_exec(f) {
        DnsError::PermissionDenied
    } else {
        otherwise
    }
}

fn call_error_of(c: &DaemonCall, detail: String) -> (r: DnsError)
    ensures
        r@ == call_error(c@, detail@),
{
    match c {
        DaemonCall::SetLinkDns(_, _) => DnsError::SetLinkDns(detail),
        DaemonCall::SetLinkDnsOverTls(_, _) => DnsError::SetLinkDns(detail),
        DaemonCall::SetLinkDomains(_, _) => DnsError::SetLinkDomains(detail),
        DaemonCall::RevertLink(_) => DnsError::RevertLink(detail),
    }
}

} // verus!
