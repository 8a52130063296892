use jsonrpsee::{Methods, RpcModule};
use taiko_rpc::transport::{merge_debank_trace_http_only, TransportRpcModules};

const DEBANK_TRACE_METHOD: &str = "trace_debankBlock";

fn debank_trace() -> Methods {
    let mut debank_trace = RpcModule::new(());
    debank_trace
        .register_method(DEBANK_TRACE_METHOD, |_, _, _| "unused")
        .expect("test method should register");
    debank_trace.into()
}

fn empty() -> Option<Methods> {
    Some(RpcModule::new(()).into())
}

#[test]
fn debank_trace_is_registered_only_on_http() {
    let runtime = tokio::runtime::Builder::new_current_thread().build().expect("runtime");
    runtime.block_on(async {
        let mut modules = TransportRpcModules { http: empty(), ws: empty(), ipc: empty() };
        assert!(merge_debank_trace_http_only(&mut modules, debank_trace())
            .expect("HTTP-only merge should succeed"));

        let http = modules.http.expect("HTTP module should exist");
        assert!(http.method_names().any(|name| name == DEBANK_TRACE_METHOD));

        let request =
            r#"{"jsonrpc":"2.0","id":1,"method":"trace_debankBlock","params":["0x1"]}"#;
        for methods in [
            modules.ws.expect("WS module should exist"),
            modules.ipc.expect("IPC module should exist"),
        ] {
            assert!(!methods.method_names().any(|name| name == DEBANK_TRACE_METHOD));
            let (response, _) =
                methods.raw_json_request(request, 1).await.expect("request should parse");
            assert!(
                response.get().contains(r#""code":-32601"#)
                    && response.get().contains(r#""message":"Method not found""#),
                "unregistered transport must return method not found: {}",
                response.get()
            );
        }
    });
}

#[test]
fn nothing_is_registered_without_http() {
    let mut modules = TransportRpcModules { http: None, ws: empty(), ipc: None };
    assert!(!merge_debank_trace_http_only(&mut modules, debank_trace()).expect("no conflict"));
    assert!(modules.http.is_none());
    assert_eq!(modules.ws.expect("WS module").method_names().count(), 0);
}

#[test]
fn a_second_registration_is_refused() {
    let mut modules = TransportRpcModules { http: empty(), ws: None, ipc: None };
    assert!(merge_debank_trace_http_only(&mut modules, debank_trace()).expect("first"));
    let error = merge_debank_trace_http_only(&mut modules, debank_trace()).expect_err("second");
    assert_eq!(error.to_string(), "Method: trace_debankBlock was already registered");
    assert_eq!(modules.http.expect("HTTP module").method_names().count(), 1);
}
