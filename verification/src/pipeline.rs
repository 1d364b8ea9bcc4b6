use vstd::prelude::*;
use crate::context::ConnectionContext;

verus! {

/// The step of a pipeline run that is under way.
#[derive(Clone, Copy, Debug, PartialEq, Eq, Structural)]
pub enum FlowStage {
    /// The `before` hook of the middleware at this index.
    Before(usize),
    /// Route selection.
    Route,
    /// Connecting the outbound.
    Connect,
    /// Relaying between the client and the outbound.
    Relay,
    /// The `after` hook of the middleware at this index.
    After(usize),
    /// The run is over.
    Done,
}

/// What a pipeline run asks its caller to do next.
#[derive(Clone, Copy, Debug, PartialEq, Eq, Structural)]
pub enum FlowAction {
    /// Run the `before` hook of the middleware at this index.
    RunBefore(usize),
    /// Ask the router for an outbound tag and hand its answer to `route_selected`.
    SelectRoute,
    /// Connect the outbound for the context.
    ConnectOutbound,
    /// Relay between the client and the outbound.
    Relay,
    /// Run the `after` hook of the middleware at this index.
    RunAfter(usize),
    /// The run succeeded.
    Finish,
    /// The run succeeded: hand the connected outbound to the caller.
    ReturnConnection,
    /// The last step failed: end the run with its error.
    Abort,
}

/// The order of a pipeline run over `middlewares` middlewares: every `before` hook in turn,
/// routing, connecting, then (when `relay`) relaying and every `after` hook in turn; any
/// failure ends the run.
pub struct PipelineFlow {
    middlewares: usize,
    relay: bool,
    stage: FlowStage,
}

/// The stage that follows a successful route selection or hook, for `m` middlewares.
pub open spec fn stage_after_before(m: usize, i: usize) -> (FlowStage, FlowAction) {
    if i + 1 < m {
        (FlowStage::Before((i + 1) as usize), FlowAction::RunBefore((i + 1) as usize))
    } else {
        (FlowStage::Route, FlowAction::SelectRoute)
    }
}

/// The first stage of a run over `m` middlewares.
pub open spec fn first_stage(m: usize) -> (FlowStage, FlowAction) {
    if m > 0 {
        (FlowStage::Before(0), FlowAction::RunBefore(0))
    } else {
        (FlowStage::Route, FlowAction::SelectRoute)
    }
}

/// The next stage and request of a run, once the current step has succeeded (`ok`) or failed.
pub open spec fn flow_step(m: usize, relay: bool, stage: FlowStage, ok: bool) -> (FlowStage, FlowAction) {
    if stage is Done {
        (FlowStage::Done, FlowAction::Abort)
    } else if !ok {
        (FlowStage::Done, FlowAction::Abort)
    } else {
        match stage {
            FlowStage::Before(i) => stage_after_before(m, i),
            FlowStage::Route => (FlowStage::Connect, FlowAction::ConnectOutbound),
            FlowStage::Connect => if relay {
                (FlowStage::Relay, FlowAction::Relay)
            } else {
                (FlowStage::Done, FlowAction::ReturnConnection)
            },
            FlowStage::Relay => if m > 0 {
                (FlowStage::After(0), FlowAction::RunAfter(0))
            } else {
                (FlowStage::Done, FlowAction::Finish)
            },
            FlowStage::After(i) => if i + 1 < m {
                (FlowStage::After((i + 1) as usize), FlowAction::RunAfter((i + 1) as usize))
            } else {
                (FlowStage::Done, FlowAction::Finish)
            },
            FlowStage::Done => (FlowStage::Done, FlowAction::Abort),
        }
    }
}

/// A stage that a run over `m` middlewares can stand in.
pub open spec fn stage_wf(m: usize, stage: FlowStage) -> bool {
    match stage {
        FlowStage::Before(i) => i < m,
        FlowStage::After(i) => i < m,
        _ => true,
    }
}

impl PipelineFlow {
    pub closed spec fn middlewares(&self) -> usize {
        self.middlewares
    }

    pub closed spec fn relays(&self) -> bool {
        self.relay
    }

    pub closed spec fn stage(&self) -> FlowStage {
        self.stage
    }

    pub closed spec fn wf(&self) -> bool {
        stage_wf(self.middlewares, self.stage)
    }

    /// A run that relays a client connection (`Pipeline::process`), and its first request.
    pub fn for_process(middlewares: usize) -> (r: (PipelineFlow, FlowAction))
        ensures
            r.0.wf(),
            r.0.middlewares() == middlewares,
            r.0.relays(),
            (r.0.stage(), r.1) == first_stage(middlewares),
    {
        Self::begin(middlewares, true)
    }

    /// A run that only connects an outbound for its caller
    /// (`Pipeline::create_outbound_connection`), and its first request.
    pub fn for_outbound_connection(middlewares: usize) -> (r: (PipelineFlow, FlowAction))
        ensures
            r.0.wf(),
            r.0.middlewares() == middlewares,
            !r.0.relays(),
            (r.0.stage(), r.1) == first_stage(middlewares),
    {
        Self::begin(middlewares, false)
    }

    fn begin(middlewares: usize, relay: bool) -> (r: (PipelineFlow, FlowAction))
        ensures
            r.0.wf(),
            r.0.middlewares() == middlewares,
            r.0.relays() == relay,
            (r.0.stage(), r.1) == first_stage(middlewares),
    {
        if middlewares > 0 {
            (PipelineFlow { middlewares, relay, stage: FlowStage::Before(0) }, FlowAction::RunBefore(0))
        } else {
            (PipelineFlow { middlewares, relay, stage: FlowStage::Route }, FlowAction::SelectRoute)
        }
    }

    /// Takes in whether the requested step succeeded and answers with the next request.
    pub fn step(&mut self, ok: bool) -> (a: FlowAction)
        requires
            old(self).wf(),
        ensures
            final(self).wf(),
            final(self).middlewares() == old(self).middlewares(),
            final(self).relays() == old(self).relays(),
            (final(self).stage(), a) == flow_step(old(self).middlewares(), old(self).relays(), old(self).stage(), ok),
    {
        if self.stage == FlowStage::Done || !ok {
            self.stage = FlowStage::Done;
            return FlowAction::Abort;
        }
        match self.stage {
            FlowStage::Before(i) => {
                if i + 1 < self.middlewares {
                    self.stage = FlowStage::Before(i + 1);
                    FlowAction::RunBefore(i + 1)
                } else {
                    self.stage = FlowStage::Route;
                    FlowAction::SelectRoute
                }
            },
            FlowStage::Route => {
                self.stage = FlowStage::Connect;
                FlowAction::ConnectOutbound
            },
            FlowStage::Connect => {
                if self.relay {
                    self.stage = FlowStage::Relay;
                    FlowAction::Relay
                } else {
                    self.stage = FlowStage::Done;
                    FlowAction::ReturnConnection
                }
            },
            FlowStage::Relay => {
                if self.middlewares > 0 {
                    self.stage = FlowStage::After(0);
                    FlowAction::RunAfter(0)
                } else {
                    self.stage = FlowStage::Done;
                    FlowAction::Finish
                }
            },
            FlowStage::After(i) => {
                if i + 1 < self.middlewares {
                    self.stage = FlowStage::After(i + 1);
                    FlowAction::RunAfter(i + 1)
                } else {
                    self.stage = FlowStage::Done;
                    FlowAction::Finish
                }
            },
            FlowStage::Done => FlowAction::Abort,
        }
    }
}

/// The context once the router has chosen `tag`: the same context, with `tag` as its
/// outbound tag.
pub open spec fn routed_context(ctx: ConnectionContext, tag: String) -> ConnectionContext {
    ConnectionContext { outbound_tag: tag, ..ctx }
}

impl PipelineFlow {
    /// Takes in the router's answer to `SelectRoute`. A chosen tag is recorded in the context
    /// as its outbound tag, so that the outbound is connected for it, and the run goes on to
    /// connect; a failure ends the run and leaves the context as the `before` hooks left it.
    /// Outside the routing stage the answer is refused like a failure.
    pub fn route_selected(&mut self, ctx: &mut ConnectionContext, selected: Option<String>) -> (a: FlowAction)
        requires
            old(self).wf(),
        ensures
            final(self).wf(),
            final(self).middlewares() == old(self).middlewares(),
            final(self).relays() == old(self).relays(),
            (final(self).stage(), a) == flow_step(
                old(self).middlewares(),
                old(self).relays(),
                old(self).stage(),
                old(self).stage() == FlowStage::Route && selected is Some,
            ),
            old(self).stage() == FlowStage::Route && selected is Some
                ==> *final(ctx) == routed_context(*old(ctx), selected->0),
            !(old(self).stage() == FlowStage::Route && selected is Some) ==> *final(ctx) == *old(ctx),
    {
        let routing = self.stage == FlowStage::Route;
        match selected {
            Some(tag) => {
                if routing {
                    ctx.outbound_tag = tag;
                }
                self.step(routing)
            },
            None => self.step(false),
        }
    }
}

/// What a run asks for over `k` steps that all succeed, from `stage` on.
pub open spec fn run_ok(m: usize, relay: bool, stage: FlowStage, k: nat) -> Seq<FlowAction>
    decreases k,
{
    if k == 0 {
        Seq::empty()
    } else {
        let (s2, a) = flow_step(m, relay, stage, true);
        seq![a] + run_ok(m, relay, s2, (k - 1) as nat)
    }
}

/// The `before` hooks of the middlewares from index `from` up to `to`, in order.
pub open spec fn befores(from: nat, to: nat) -> Seq<FlowAction> {
    Seq::new((to - from) as nat, |i: int| FlowAction::RunBefore((from + i) as usize))
}

/// The `after` hooks of the middlewares from index `from` up to `to`, in order.
pub open spec fn afters(from: nat, to: nat) -> Seq<FlowAction> {
    Seq::new((to - from) as nat, |i: int| FlowAction::RunAfter((from + i) as usize))
}

proof fn lemma_before_chain(m: usize, relay: bool, i: usize, k: nat)
    requires
        i < m,
        k >= m - i,
    ensures
        run_ok(m, relay, FlowStage::Before(i), k) == befores((i + 1) as nat, m as nat) + seq![FlowAction::SelectRoute]
            + run_ok(m, relay, FlowStage::Route, (k - (m - i)) as nat),
    decreases m - i,
{
    if i + 1 < m {
        lemma_before_chain(m, relay, (i + 1) as usize, (k - 1) as nat);
        assert(befores((i + 1) as nat, m as nat) =~= seq![FlowAction::RunBefore((i + 1) as usize)] + befores((i + 2) as nat, m as nat));
    } else {
        assert(befores((i + 1) as nat, m as nat) =~= Seq::<FlowAction>::empty());
    }
}

proof fn lemma_after_chain(m: usize, relay: bool, i: usize, k: nat)
    requires
        i < m,
        k >= m - i,
    ensures
        run_ok(m, relay, FlowStage::After(i), k) == afters((i + 1) as nat, m as nat) + seq![FlowAction::Finish]
            + run_ok(m, relay, FlowStage::Done, (k - (m - i)) as nat),
    decreases m - i,
{
    if i + 1 < m {
        lemma_after_chain(m, relay, (i + 1) as usize, (k - 1) as nat);
        assert(afters((i + 1) as nat, m as nat) =~= seq![FlowAction::RunAfter((i + 1) as usize)] + afters((i + 2) as nat, m as nat));
    } else {
        assert(afters((i + 1) as nat, m as nat) =~= Seq::<FlowAction>::empty());
    }
}

/// When every step succeeds, `Pipeline::process` runs every middleware's `before` hook in
/// order, then routes, connects, relays, and runs every middleware's `after` hook in order.
pub proof fn lemma_process_order(m: usize)
    ensures
        seq![first_stage(m).1] + run_ok(m, true, first_stage(m).0, (2 * m + 3) as nat) == befores(0, m as nat)
            + seq![FlowAction::SelectRoute, FlowAction::ConnectOutbound, FlowAction::Relay] + afters(0, m as nat)
            + seq![FlowAction::Finish],
{
    let k = (2 * m + 3) as nat;
    let mm = m as nat;
    assert(run_ok(m, true, FlowStage::Done, 0) =~= Seq::<FlowAction>::empty());
    if m > 0 {
        lemma_after_chain(m, true, 0, mm);
        assert(run_ok(m, true, FlowStage::After(0), mm) =~= afters(1, mm) + seq![FlowAction::Finish]);
        assert(run_ok(m, true, FlowStage::Relay, mm + 1) =~= seq![FlowAction::RunAfter(0)] + run_ok(m, true, FlowStage::After(0), mm));
        assert(run_ok(m, true, FlowStage::Connect, mm + 2) =~= seq![FlowAction::Relay] + run_ok(m, true, FlowStage::Relay, mm + 1));
        assert(run_ok(m, true, FlowStage::Route, mm + 3) =~= seq![FlowAction::ConnectOutbound] + run_ok(m, true, FlowStage::Connect, mm + 2));
        lemma_before_chain(m, true, 0, k);
        assert(befores(0, mm) =~= seq![FlowAction::RunBefore(0)] + befores(1, mm));
        assert(afters(0, mm) =~= seq![FlowAction::RunAfter(0)] + afters(1, mm));
    } else {
        assert(run_ok(m, true, FlowStage::Relay, 1) =~= seq![FlowAction::Finish]);
        assert(run_ok(m, true, FlowStage::Connect, 2) =~= seq![FlowAction::Relay, FlowAction::Finish]);
        assert(run_ok(m, true, FlowStage::Route, 3) =~= seq![FlowAction::ConnectOutbound, FlowAction::Relay, FlowAction::Finish]);
        assert(befores(0, 0) =~= Seq::<FlowAction>::empty());
        assert(afters(0, 0) =~= Seq::<FlowAction>::empty());
    }
    assert(seq![first_stage(m).1] + run_ok(m, true, first_stage(m).0, k) =~= befores(0, mm)
        + seq![FlowAction::SelectRoute, FlowAction::ConnectOutbound, FlowAction::Relay] + afters(0, mm)
        + seq![FlowAction::Finish]);
}

/// When every step succeeds, `Pipeline::create_outbound_connection` runs every middleware's
/// `before` hook in order, then routes, connects, and hands the connection over without
/// running any `after` hook.
pub proof fn lemma_outbound_connection_order(m: usize)
    ensures
        seq![first_stage(m).1] + run_ok(m, false, first_stage(m).0, (m + 2) as nat) == befores(0, m as nat)
            + seq![FlowAction::SelectRoute, FlowAction::ConnectOutbound, FlowAction::ReturnConnection],
{
    let mm = m as nat;
    assert(run_ok(m, false, FlowStage::Done, 0) =~= Seq::<FlowAction>::empty());
    assert(run_ok(m, false, FlowStage::Connect, 1) =~= seq![FlowAction::ReturnConnection]);
    assert(run_ok(m, false, FlowStage::Route, 2) =~= seq![FlowAction::ConnectOutbound, FlowAction::ReturnConnection]);
    if m > 0 {
        lemma_before_chain(m, false, 0, mm + 2);
        assert(befores(0, mm) =~= seq![FlowAction::RunBefore(0)] + befores(1, mm));
    } else {
        assert(befores(0, 0) =~= Seq::<FlowAction>::empty());
    }
    assert(seq![first_stage(m).1] + run_ok(m, false, first_stage(m).0, mm + 2) =~= befores(0, mm)
        + seq![FlowAction::SelectRoute, FlowAction::ConnectOutbound, FlowAction::ReturnConnection]);
}

/// A failed step ends the run: the run asks to abort, and from then on asks for nothing but
/// to abort, so no later hook, route, connection or relay is requested.
pub proof fn lemma_failure_ends_run(m: usize, relay: bool, stage: FlowStage)
    ensures
        flow_step(m, relay, stage, false) == (FlowStage::Done, FlowAction::Abort),
        forall|ok: bool| #[trigger] flow_step(m, relay, FlowStage::Done, ok) == (FlowStage::Done, FlowAction::Abort),
{
}

} // verus!
