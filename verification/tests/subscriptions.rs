use management_interface::error::ApiError;
use management_interface::gateway::ManagementInterface;
use management_interface::registry::SubscriberMap;
use management_interface::session::Meta;
use management_interface::types::{DaemonState, SecurityState, TargetState};

fn gateway_with(secret: &str) -> ManagementInterface {
    ManagementInterface::new(secret.to_string())
}

fn authed(mi: &ManagementInterface, sink: u64) -> Meta {
    let mut meta = Meta::new(sink);
    mi.auth(&mut meta, "sesame".to_string()).expect("auth with the right secret must pass");
    meta
}

fn state_up() -> DaemonState {
    DaemonState { state: SecurityState::Secured, target_state: TargetState::Secured }
}

fn state_down() -> DaemonState {
    DaemonState { state: SecurityState::Unsecured, target_state: TargetState::Unsecured }
}

#[test]
fn subscribe_returns_distinct_live_ids() {
    let mut mi = gateway_with("sesame");
    let first = mi.new_state_subscribe(&authed(&mi, 1)).expect("authenticated subscribe");
    let second = mi.new_state_subscribe(&authed(&mi, 2)).expect("authenticated subscribe");
    let third = mi.new_state_subscribe(&authed(&mi, 3)).expect("authenticated subscribe");
    assert_ne!(first, second);
    assert_ne!(first, third);
    assert_ne!(second, third);
}

#[test]
fn the_two_topics_have_independent_subscriber_sets() {
    let mut mi = gateway_with("sesame");
    let meta = authed(&mi, 9);
    let state_id = mi.new_state_subscribe(&meta).expect("authenticated subscribe");
    // The error topic does not know the new_state subscription.
    assert_eq!(mi.error_unsubscribe(state_id), Err(ApiError::InvalidSubscription));
    assert_eq!(mi.new_state_unsubscribe(state_id), Ok(()));
}

#[test]
fn unsubscribe_unknown_id_is_invalid_and_changes_nothing() {
    let mut mi = gateway_with("sesame");
    let meta = authed(&mi, 1);
    assert_eq!(mi.new_state_unsubscribe(12345), Err(ApiError::InvalidSubscription));
    let id = mi.new_state_subscribe(&meta).expect("authenticated subscribe");
    assert_eq!(mi.new_state_unsubscribe(id), Ok(()));
    // Already removed: a second attempt is invalid too.
    assert_eq!(mi.new_state_unsubscribe(id), Err(ApiError::InvalidSubscription));
    assert_eq!(mi.event_broadcaster().notify_new_state(state_up()).len(), 0);
}

#[test]
fn broadcast_reaches_every_subscriber_registered_at_call_time() {
    let mut mi = gateway_with("sesame");
    mi.new_state_subscribe(&authed(&mi, 11)).expect("authenticated subscribe");
    mi.new_state_subscribe(&authed(&mi, 22)).expect("authenticated subscribe");
    let deliveries = mi.event_broadcaster().notify_new_state(state_up());
    assert_eq!(deliveries, vec![(11, state_up()), (22, state_up())]);
}

#[test]
fn removed_subscriber_misses_later_broadcasts() {
    let mut mi = gateway_with("sesame");
    let keep = authed(&mi, 11);
    let leaver = authed(&mi, 22);
    mi.new_state_subscribe(&keep).expect("authenticated subscribe");
    let dropped_id = mi.new_state_subscribe(&leaver).expect("authenticated subscribe");
    assert_eq!(
        mi.event_broadcaster().notify_new_state(state_up()),
        vec![(11, state_up()), (22, state_up())]
    );
    assert_eq!(mi.new_state_unsubscribe(dropped_id), Ok(()));
    assert_eq!(
        mi.event_broadcaster().notify_new_state(state_down()),
        vec![(11, state_down())]
    );
}

#[test]
fn late_subscriber_receives_subsequent_broadcasts() {
    let mut mi = gateway_with("sesame");
    mi.new_state_subscribe(&authed(&mi, 11)).expect("authenticated subscribe");
    assert_eq!(
        mi.event_broadcaster().notify_new_state(state_up()),
        vec![(11, state_up())]
    );
    mi.new_state_subscribe(&authed(&mi, 22)).expect("authenticated subscribe");
    assert_eq!(
        mi.event_broadcaster().notify_new_state(state_down()),
        vec![(11, state_down()), (22, state_down())]
    );
}

#[test]
fn error_broadcast_delivers_the_cause_chain_to_each_subscriber() {
    let mut mi = gateway_with("sesame");
    mi.error_subscribe(&authed(&mi, 5)).expect("authenticated subscribe");
    mi.error_subscribe(&authed(&mi, 6)).expect("authenticated subscribe");
    let chain = vec!["tunnel failed".to_string(), "device gone".to_string()];
    let deliveries = mi.event_broadcaster().notify_error(&chain);
    assert_eq!(deliveries.len(), 2);
    assert_eq!(deliveries[0], (5, chain.clone()));
    assert_eq!(deliveries[1], (6, chain));
}

#[test]
fn subscriber_map_tracks_live_ids_and_sinks() {
    let mut map = SubscriberMap::new();
    assert_eq!(map.len(), 0);
    let a = map.subscribe(100);
    let b = map.subscribe(200);
    assert_eq!(map.len(), 2);
    assert!(map.contains(a));
    assert!(map.contains(b));
    assert_eq!(map.sinks(), vec![100, 200]);
    assert!(map.unsubscribe(a));
    assert!(!map.contains(a));
    assert!(!map.unsubscribe(a));
    assert_eq!(map.sinks(), vec![200]);
}
