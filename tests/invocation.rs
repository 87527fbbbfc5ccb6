use crossroads::engine::exports_checked;
use crossroads::extension::handle;
use crossroads::gateway::{bad_gateway_body, dispatch, internal_error_body, upstream_failure, Dispatch, Gateway};
use crossroads::request::status_code_accepted;
use crossroads::{
    resolve, CompileError, Context, ExecutionEngine, RawResolution, Request, Resolution,
    Response, RuntimeFault,
};

fn get(uri: &str) -> Request {
    Request::new("GET".to_string(), uri.to_string(), Vec::new(), Vec::new()).unwrap()
}

fn get_with(uri: &str, headers: &[(&str, &str)]) -> Request {
    let headers = headers.iter().map(|(n, v)| (n.to_string(), v.to_string())).collect();
    Request::new("GET".to_string(), uri.to_string(), headers, Vec::new()).unwrap()
}

const EMPTY_COMPONENT: [u8; 8] = [0x00, 0x61, 0x73, 0x6d, 0x0d, 0x00, 0x01, 0x00];

#[test]
fn noop_extension_answers_404() {
    let ctx = Context::new(get("/anything"));
    let r = resolve(ctx, Ok(handle()));
    assert_eq!(
        r,
        Ok(Resolution::Respond(Response { status_code: 404, body: None }))
    );
}

#[test]
fn respond_ignores_the_request() {
    let ok = || Response { status_code: 200, body: Some(b"ok".to_vec()) };
    for uri in ["/", "/anything", "http://example.com/x"] {
        let mut ctx = Context::new(get(uri));
        ctx.set_header("x-a".to_string(), "1".to_string()).unwrap();
        let r = resolve(ctx, Ok(RawResolution::Respond(ok())));
        assert_eq!(r, Ok(Resolution::Respond(ok())));
    }
}

#[test]
fn forward_carries_changed_request() {
    let mut ctx = Context::new(get("/a"));
    ctx.set_header("X-Route".to_string(), "blue".to_string()).unwrap();
    ctx.set_uri("http://upstream.local/a".to_string()).unwrap();
    match resolve(ctx, Ok(RawResolution::Forward)) {
        Ok(Resolution::Forward(r)) => {
            assert_eq!(r.uri(), "http://upstream.local/a");
            assert_eq!(r.headers(), &vec![("x-route".to_string(), "blue".to_string())]);
        }
        other => panic!("expected a forward, got {:?}", other),
    }
}

#[test]
fn trap_is_a_fault_never_a_forward() {
    let mut ctx = Context::new(get("/a"));
    ctx.set_header("x-a".to_string(), "1".to_string()).unwrap();
    let r = resolve(ctx, Err("wasm trap: unreachable".to_string()));
    assert_eq!(r, Err(RuntimeFault::Trap("wasm trap: unreachable".to_string())));
}

#[test]
fn invalid_status_is_a_fault() {
    let ctx = Context::new(get("/"));
    let r = resolve(ctx, Ok(RawResolution::Respond(Response { status_code: 42, body: None })));
    assert_eq!(r, Err(RuntimeFault::InvalidStatus(42)));
    let ctx = Context::new(get("/"));
    let r = resolve(ctx, Ok(RawResolution::Respond(Response { status_code: 999, body: None })));
    assert_eq!(r, Ok(Resolution::Respond(Response { status_code: 999, body: None })));
}

#[test]
fn concurrent_invocations_do_not_mix() {
    let mut a = Context::new(get("/a"));
    let mut b = Context::new(get("/b"));
    a.set_header("x-who".to_string(), "a".to_string()).unwrap();
    b.set_header("x-who".to_string(), "b".to_string()).unwrap();
    a.set_uri("/a2".to_string()).unwrap();
    b.set_header("x-only-b".to_string(), "1".to_string()).unwrap();
    let ra = resolve(a, Ok(RawResolution::Forward));
    let rb = resolve(b, Ok(RawResolution::Forward));
    let ea = get_with("/a2", &[("x-who", "a")]);
    let eb = get_with("/b", &[("x-who", "b"), ("x-only-b", "1")]);
    assert_eq!(ra, Ok(Resolution::Forward(ea)));
    assert_eq!(rb, Ok(Resolution::Forward(eb)));
}

#[test]
fn compile_rejects_malformed_bytes() {
    let engine = ExecutionEngine::new().unwrap();
    assert!(matches!(engine.compile(b"not wasm"), Err(CompileError::Malformed(_))));
}

#[test]
fn compile_rejects_component_without_entry_point() {
    let engine = ExecutionEngine::new().unwrap();
    assert!(matches!(engine.compile(&EMPTY_COMPONENT), Err(CompileError::MissingInterface)));
}

#[test]
fn compile_errors_name_their_cause() {
    assert_eq!(
        CompileError::UnmetImports("unknown import".to_string()).message(),
        "imports not satisfied: unknown import"
    );
    assert_eq!(
        CompileError::EntryPointType("expected a variant".to_string()).message(),
        "entry point has the wrong type: expected a variant"
    );
}

#[test]
fn export_verdicts() {
    assert_eq!(exports_checked(None, None), Err(CompileError::MissingInterface));
}

#[test]
fn dispatch_decisions() {
    let ok = Response { status_code: 200, body: Some(b"ok".to_vec()) };
    assert_eq!(
        dispatch(Ok(Resolution::Respond(Response { status_code: 200, body: Some(b"ok".to_vec()) }))),
        Dispatch::Reply(ok)
    );
    assert_eq!(dispatch(Ok(Resolution::Forward(get("/x")))), Dispatch::Upstream(get("/x")));
    assert_eq!(
        dispatch(Err(RuntimeFault::Trap("boom".to_string()))),
        Dispatch::Failure { status_code: 500, message: "Internal Server Error: boom".to_string() }
    );
    assert_eq!(
        upstream_failure("refused"),
        Dispatch::Failure {
            status_code: 502,
            message: "Failed to connect to destination: refused".to_string()
        }
    );
}

#[test]
fn status_code_bounds() {
    assert!(!status_code_accepted(99));
    assert!(status_code_accepted(100));
    assert!(status_code_accepted(999));
    assert!(!status_code_accepted(1000));
}

#[test]
fn fault_messages() {
    assert_eq!(
        RuntimeFault::Compile(CompileError::MissingInterface).message(),
        "the component does not export the proxy interface"
    );
    assert_eq!(
        internal_error_body(&RuntimeFault::Trap("boom".to_string())),
        "Internal Server Error: boom"
    );
    assert_eq!(
        bad_gateway_body("refused"),
        "Failed to connect to destination: refused"
    );
}

#[test]
fn gateway_takes_configured_port() {
    let configuration = crossroads::configuration::gateway::Configuration { port: 8080 };
    assert_eq!(Gateway::new(&configuration).port(), 8080);
}
