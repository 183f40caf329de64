use std::collections::HashMap;

use httpsrv::bridge::reply_for;
use httpsrv::config::{ListenerConfig, DEFAULT_HOST, DEFAULT_PORT};
use httpsrv::provider::{
    handle_call, route_call, LifecycleAction, LifecycleCommand, ProviderError, CAPABILITY_ID,
    OP_BIND_ACTOR, OP_REMOVE_ACTOR, PROVIDER_NAME, SYSTEM_ORIGIN,
};
use httpsrv::registry::ListenerRegistry;

fn config_bytes(module: &str, values: &[(&str, &str)]) -> Vec<u8> {
    let mut map = HashMap::new();
    for (k, v) in values {
        map.insert(k.to_string(), v.to_string());
    }
    let cfg = wascc_codec::core::CapabilityConfiguration { module: module.to_string(), values: map };
    wascc_codec::serialize(cfg).unwrap()
}

fn bound_config(r: Result<LifecycleCommand, ProviderError>) -> ListenerConfig {
    match r {
        Ok(LifecycleCommand::Start(c)) => c,
        _ => panic!("expected a start command"),
    }
}

#[test]
fn empty_values_bind_default_address() {
    let c = bound_config(route_call("system", "BindActor", &config_bytes("m0", &[])));
    assert_eq!(c.module, "m0");
    assert_eq!(c.host, DEFAULT_HOST);
    assert_eq!(c.port, DEFAULT_PORT);
    assert_eq!(c.address(), "0.0.0.0:8080");
}

#[test]
fn configured_host_and_port_are_used() {
    let msg = config_bytes("m1", &[("HOST", "127.0.0.1"), ("PORT", "9100"), ("OTHER", "x")]);
    let c = bound_config(route_call(SYSTEM_ORIGIN, OP_BIND_ACTOR, &msg));
    assert_eq!(c.address(), "127.0.0.1:9100");
}

#[test]
fn only_port_configured() {
    let c = bound_config(route_call("system", "BindActor", &config_bytes("m", &[("PORT", "1")])));
    assert_eq!(c.address(), "0.0.0.0:1");
}

#[test]
fn listener_config_from_values_defaults() {
    let c = ListenerConfig::from_values("m".to_string(), &vec![("HOST".to_string(), "::1".to_string())]);
    assert_eq!(c.host, "::1");
    assert_eq!(c.port, "8080");
    assert_eq!(c.address(), "::1:8080");
}

#[test]
fn untrusted_origin_cannot_bind() {
    let mut reg: ListenerRegistry<u32> = ListenerRegistry::new();
    reg.insert("m1".to_string(), 7);
    let msg = config_bytes("m1", &[]);
    for op in [OP_BIND_ACTOR, OP_REMOVE_ACTOR] {
        match handle_call(&mut reg, "Mxyz_actor", op, &msg) {
            Err(e) => assert_eq!(e.message(), format!("Unknown operation: {}", op)),
            Ok(_) => panic!("untrusted origin was honoured"),
        }
    }
    assert!(reg.contains(&"m1".to_string()));
    assert_eq!(reg.remove(&"m1".to_string()), Some(7));
}

#[test]
fn unknown_operation_is_named() {
    match route_call("system", "Frobnicate", &[]) {
        Err(ProviderError::UnknownOperation(op)) => assert_eq!(op, "Frobnicate"),
        _ => panic!("expected unknown operation"),
    }
}

#[test]
fn malformed_configuration_is_a_decode_error() {
    match route_call("system", "BindActor", &[0xc1]) {
        Err(ProviderError::Decode(_)) => {}
        _ => panic!("expected decode error"),
    }
    match route_call("system", "RemoveActor", &[]) {
        Err(ProviderError::Decode(m)) => {
            assert_eq!(ProviderError::Decode(m.clone()).message(), m)
        }
        _ => panic!("expected decode error"),
    }
}

#[test]
fn stop_of_unknown_module_changes_nothing() {
    let mut reg: ListenerRegistry<u32> = ListenerRegistry::new();
    reg.insert("a".to_string(), 1);
    match handle_call(&mut reg, "system", "RemoveActor", &config_bytes("b", &[])) {
        Ok(LifecycleAction::NotRunning(m)) => assert_eq!(m, "b"),
        _ => panic!("expected a no-op"),
    }
    assert!(reg.contains(&"a".to_string()));
    assert!(!reg.contains(&"b".to_string()));
    assert_eq!(reg.remove(&"b".to_string()), None);
}

#[test]
fn second_start_replaces_first() {
    let mut reg: ListenerRegistry<u32> = ListenerRegistry::new();
    assert_eq!(reg.insert("m".to_string(), 1), None);
    assert_eq!(reg.insert("m".to_string(), 2), Some(1));
    match handle_call(&mut reg, "system", "RemoveActor", &config_bytes("m", &[])) {
        Ok(LifecycleAction::Shutdown(h)) => assert_eq!(h, 2),
        _ => panic!("expected a shutdown"),
    }
    assert!(!reg.contains(&"m".to_string()));
    assert_eq!(reg.remove(&"m".to_string()), None);
}

#[test]
fn bind_leaves_registry_alone() {
    let mut reg: ListenerRegistry<u32> = ListenerRegistry::new();
    match handle_call(&mut reg, "system", "BindActor", &config_bytes("m", &[])) {
        Ok(LifecycleAction::Bind(c)) => assert_eq!(c.address(), "0.0.0.0:8080"),
        _ => panic!("expected a bind"),
    }
    assert!(!reg.contains(&"m".to_string()));
}

#[test]
fn bind_serve_unbind_scenario() {
    let mut reg: ListenerRegistry<u32> = ListenerRegistry::new();
    let msg = config_bytes("m1", &[("HOST", "127.0.0.1"), ("PORT", "9100")]);
    let config = match handle_call(&mut reg, "system", "BindActor", &msg) {
        Ok(LifecycleAction::Bind(c)) => c,
        _ => panic!("expected a bind"),
    };
    assert_eq!(config.address(), "127.0.0.1:9100");
    assert_eq!(reg.insert(config.module.clone(), 9100), None);

    let resp = wascc_codec::http::Response {
        status_code: 201,
        status: "Created".to_string(),
        header: HashMap::new(),
        body: b"ok".to_vec(),
    };
    let reply = reply_for(Ok(wascc_codec::serialize(resp).unwrap()));
    assert_eq!(reply.status, 201);
    assert_eq!(reply.body, b"ok".to_vec());

    match handle_call(&mut reg, "system", "RemoveActor", &config_bytes("m1", &[])) {
        Ok(LifecycleAction::Shutdown(h)) => assert_eq!(h, 9100),
        _ => panic!("expected a shutdown"),
    }
    assert!(!reg.contains(&"m1".to_string()));
}

#[test]
fn provider_identity() {
    assert_eq!(CAPABILITY_ID, "wascc:http_server");
    assert_eq!(PROVIDER_NAME, "waSCC Default HTTP Server (Actix Web)");
}

#[test]
fn deep_configuration_is_a_decode_error() {
    let mut msg = vec![0x82, 0xa6];
    msg.extend_from_slice(b"module");
    msg.extend_from_slice(&[0xa1, b'm', 0xa1, b'x']);
    msg.extend(std::iter::repeat(0x91).take(100_000));
    msg.push(0xc0);
    let mut reg: ListenerRegistry<u32> = ListenerRegistry::new();
    match handle_call(&mut reg, "system", "BindActor", &msg) {
        Err(ProviderError::Decode(m)) => assert_eq!(m, "Failed to de-serialize: nesting too deep"),
        _ => panic!("expected decode error"),
    }
}
