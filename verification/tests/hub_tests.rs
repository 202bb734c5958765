use std::sync::Arc;

use forgeflow::tools::gmail_tool::GmailToolBuilder;
use forgeflow::triggers::gmail_watch_trigger::GmailWatchTriggerBuilder;
use forgeflow::utils::context_hub::{AuthHandle, ContextHub};
use forgeflow::utils::google_auth::{flow_return_method, FlowReturnMethod, GConf, GmailScope, GoogleAuthFlow, InnerConf};

fn test_conf() -> GConf {
    GConf(Arc::new(InnerConf {
        credentials_path: "./tmp/credential.json".to_string(),
        token_path: "./tmp/token.json".to_string(),
        flow: GoogleAuthFlow::default(),
    }))
}

#[test]
fn scopes_accumulate_without_duplicates() {
    let mut hub = ContextHub::new(test_conf());
    assert_eq!(hub.snapshot_scopes(), vec![]);

    hub.add_scope(GmailScope::Readonly);
    hub.add_scope(GmailScope::Modify);
    hub.add_scope(GmailScope::Readonly);

    assert_eq!(
        hub.snapshot_scopes(),
        vec![GmailScope::Readonly, GmailScope::Modify]
    );
}

#[test]
fn two_builders_share_one_handshake() {
    // Two independent consumers register their scopes before either builds:
    // the one handshake carries the union, and a second build performs no
    // second handshake.
    let mut hub = ContextHub::new(test_conf());
    let _watch_builder = GmailWatchTriggerBuilder::new(&mut hub);
    let _tool_builder = GmailToolBuilder::new(&mut hub);

    assert_eq!(
        hub.snapshot_scopes(),
        vec![GmailScope::Readonly, GmailScope::Modify]
    );

    // First build: nothing cached yet, so one handshake runs, with the
    // snapshot of everything registered so far.
    let mut handshakes = 0;
    if hub.get_hub().is_none() {
        let snapshot = hub.snapshot_scopes();
        handshakes += 1;
        hub.install_hub(AuthHandle { scopes: snapshot });
    }
    let first = hub.get_hub().expect("the handle is cached now").clone();
    assert_eq!(
        first.scopes,
        vec![GmailScope::Readonly, GmailScope::Modify]
    );

    // Second build: the cached handle is observed, no handshake runs.
    if hub.get_hub().is_none() {
        handshakes += 1;
        let snapshot = hub.snapshot_scopes();
        hub.install_hub(AuthHandle { scopes: snapshot });
    }
    let second = hub.get_hub().expect("still cached").clone();

    assert_eq!(handshakes, 1);
    assert_eq!(first.scopes, second.scopes);
}

#[test]
fn get_hub_returns_cached_handle_to_every_caller() {
    let mut hub = ContextHub::new(test_conf());
    hub.add_scope(GmailScope::Full);
    assert!(hub.get_hub().is_none());

    let snapshot = hub.snapshot_scopes();
    hub.install_hub(AuthHandle { scopes: snapshot });

    for _ in 0..5 {
        let handle = hub.get_hub().expect("cached after the first handshake");
        assert_eq!(handle.scopes, vec![GmailScope::Full]);
    }
}

#[test]
fn late_registration_keeps_cached_handle() {
    let mut hub = ContextHub::new(test_conf());
    hub.add_scope(GmailScope::Readonly);
    let snapshot = hub.snapshot_scopes();
    hub.install_hub(AuthHandle { scopes: snapshot });

    // A scope registered after authentication is not part of the handle.
    hub.add_scope(GmailScope::Send);
    let handle = hub.get_hub().unwrap();
    assert_eq!(handle.scopes, vec![GmailScope::Readonly]);
    assert_eq!(
        hub.snapshot_scopes(),
        vec![GmailScope::Readonly, GmailScope::Send]
    );
}

#[test]
fn flow_decides_return_method_and_browser() {
    let default_flow = GoogleAuthFlow::default();
    assert_eq!(
        flow_return_method(&default_flow),
        (FlowReturnMethod::HttpRedirect, false)
    );
    assert_eq!(
        flow_return_method(&GoogleAuthFlow::Redirect {
            port: Some(8080),
            open_browser: true
        }),
        (FlowReturnMethod::HttpPortRedirect(8080), true)
    );
    assert_eq!(
        flow_return_method(&GoogleAuthFlow::Interactive { open_browser: true }),
        (FlowReturnMethod::Interactive, true)
    );
}

#[test]
fn standalone_gmail_tool_keeps_its_configuration() {
    let tool = forgeflow::tools::gmail_actions::GmailTool::new(test_conf());
    assert_eq!(tool.gconf().0.credentials_path, "./tmp/credential.json");
    assert_eq!(tool.gconf().0.token_path, "./tmp/token.json");
}
