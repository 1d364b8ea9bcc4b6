use mini_pipeline_proxy::context::ConnectionContext;
use mini_pipeline_proxy::net::SocketAddress;
use mini_pipeline_proxy::pipeline::{FlowAction, PipelineFlow};

fn ctx() -> ConnectionContext {
    ConnectionContext::socks5_connect(SocketAddress::V4 { ip: 0x7f000001, port: 4000 }, Some("example.org".to_string()), Some(443))
}

fn run(mut flow: PipelineFlow, first: FlowAction, outcomes: &[bool]) -> Vec<FlowAction> {
    let mut acts = vec![first];
    for ok in outcomes {
        acts.push(flow.step(*ok));
    }
    acts
}

#[test]
fn process_runs_hooks_around_relay() {
    let (f, a) = PipelineFlow::for_process(2);
    let acts = run(f, a, &[true; 7]);
    assert_eq!(acts, vec![
        FlowAction::RunBefore(0),
        FlowAction::RunBefore(1),
        FlowAction::SelectRoute,
        FlowAction::ConnectOutbound,
        FlowAction::Relay,
        FlowAction::RunAfter(0),
        FlowAction::RunAfter(1),
        FlowAction::Finish,
    ]);
}

#[test]
fn process_without_middlewares() {
    let (f, a) = PipelineFlow::for_process(0);
    assert_eq!(run(f, a, &[true; 3]), vec![FlowAction::SelectRoute, FlowAction::ConnectOutbound, FlowAction::Relay, FlowAction::Finish]);
}

#[test]
fn outbound_connection_stops_after_connect() {
    let (f, a) = PipelineFlow::for_outbound_connection(1);
    assert_eq!(run(f, a, &[true; 3]), vec![
        FlowAction::RunBefore(0),
        FlowAction::SelectRoute,
        FlowAction::ConnectOutbound,
        FlowAction::ReturnConnection,
    ]);
}

#[test]
fn failure_aborts_the_run() {
    let (f, a) = PipelineFlow::for_process(1);
    assert_eq!(run(f, a, &[true, false, true]), vec![
        FlowAction::RunBefore(0),
        FlowAction::SelectRoute,
        FlowAction::Abort,
        FlowAction::Abort,
    ]);
}

#[test]
fn router_tag_is_recorded_before_connecting() {
    let (mut f, a) = PipelineFlow::for_outbound_connection(1);
    assert_eq!(a, FlowAction::RunBefore(0));
    assert_eq!(f.step(true), FlowAction::SelectRoute);
    let mut c = ctx();
    assert_eq!(f.route_selected(&mut c, Some("proxy".to_string())), FlowAction::ConnectOutbound);
    assert_eq!(c.outbound_tag, "proxy");
    assert_eq!(c.dst_host.as_deref(), Some("example.org"));
    assert_eq!(c.dst_port, Some(443));
    assert_eq!(f.step(true), FlowAction::ReturnConnection);
}

#[test]
fn failed_routing_leaves_the_tag() {
    let (mut f, _) = PipelineFlow::for_process(0);
    let mut c = ctx();
    assert_eq!(f.route_selected(&mut c, None), FlowAction::Abort);
    assert_eq!(c.outbound_tag, "");
    assert_eq!(f.route_selected(&mut c, Some("direct".to_string())), FlowAction::Abort);
    assert_eq!(c.outbound_tag, "");
}
