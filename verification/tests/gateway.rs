use management_interface::channel::TunnelCommand;
use management_interface::error::{
    ApiError, UpstreamError, INTERNAL_ERROR_CODE, INVALID_PARAMS_CODE, INVALID_REQUEST_CODE,
};
use management_interface::gateway::{resolve_account_data, resolve_reply, ManagementInterface};
use management_interface::session::Meta;
use management_interface::types::{
    AccountData, DaemonState, RelayEndpoint, SecurityState, TargetState, TransportProtocol,
};

fn authed(mi: &ManagementInterface, sink: u64, secret: &str) -> Meta {
    let mut meta = Meta::new(sink);
    mi.auth(&mut meta, secret.to_string()).expect("auth with the right secret must pass");
    meta
}

#[test]
fn unauthenticated_calls_rejected_and_dispatch_nothing() {
    let mut mi = ManagementInterface::new("sesame".to_string());
    let meta = Meta::new(1);
    assert_eq!(mi.connect(&meta), Err(ApiError::Unauthenticated));
    assert_eq!(mi.disconnect(&meta), Err(ApiError::Unauthenticated));
    assert_eq!(mi.get_state(&meta), Err(ApiError::Unauthenticated));
    assert_eq!(mi.get_account(&meta), Err(ApiError::Unauthenticated));
    assert_eq!(
        mi.get_account_data(&meta, "12345".to_string()),
        Err(ApiError::Unauthenticated)
    );
    assert_eq!(mi.set_account(&meta, None), Err(ApiError::Unauthenticated));
    assert_eq!(mi.remove_custom_relay(&meta), Err(ApiError::Unauthenticated));
    assert_eq!(mi.set_autoconnect(&meta, true), Err(ApiError::Unauthenticated));
    assert_eq!(
        mi.set_custom_relay(
            &meta,
            RelayEndpoint {
                host: "relay.example".to_string(),
                port: 443,
                protocol: TransportProtocol::Udp,
            }
        ),
        Err(ApiError::Unauthenticated)
    );
    assert_eq!(mi.new_state_subscribe(&meta), None);
    assert_eq!(mi.error_subscribe(&meta), None);
    // The channel received nothing.
    assert_eq!(mi.pop_command(), None);
}

#[test]
fn auth_with_correct_secret_enables_privileged_calls() {
    let mut mi = ManagementInterface::new("sesame".to_string());
    let mut meta = Meta::new(1);
    assert_eq!(mi.auth(&mut meta, "sesame".to_string()), Ok(()));
    assert_eq!(mi.check_auth(&meta), Ok(()));
    assert_eq!(mi.connect(&meta), Ok(()));
    assert_eq!(mi.set_autoconnect(&meta, false), Ok(()));
}

#[test]
fn auth_with_wrong_secret_fails_and_clears_the_flag() {
    let mut mi = ManagementInterface::new("sesame".to_string());
    let mut meta = Meta::new(1);
    assert_eq!(mi.auth(&mut meta, "sesame".to_string()), Ok(()));
    // A later failed attempt resets the flag.
    assert_eq!(mi.auth(&mut meta, "guess".to_string()), Err(ApiError::Internal));
    assert_eq!(mi.check_auth(&meta), Err(ApiError::Unauthenticated));
    assert_eq!(mi.connect(&meta), Err(ApiError::Unauthenticated));
    assert_eq!(mi.pop_command(), None);
}

#[test]
fn connect_dispatches_exactly_one_secured_command() {
    let mut mi = ManagementInterface::new("sesame".to_string());
    let meta = authed(&mi, 1, "sesame");
    assert_eq!(mi.connect(&meta), Ok(()));
    assert_eq!(
        mi.pop_command(),
        Some(TunnelCommand::SetTargetState(TargetState::Secured))
    );
    assert_eq!(mi.pop_command(), None);
}

#[test]
fn disconnect_dispatches_exactly_one_unsecured_command() {
    let mut mi = ManagementInterface::new("sesame".to_string());
    let meta = authed(&mi, 1, "sesame");
    assert_eq!(mi.disconnect(&meta), Ok(()));
    assert_eq!(
        mi.pop_command(),
        Some(TunnelCommand::SetTargetState(TargetState::Unsecured))
    );
    assert_eq!(mi.pop_command(), None);
}

#[test]
fn slot_commands_carry_their_delivery_slot() {
    let mut mi = ManagementInterface::new("sesame".to_string());
    let meta = authed(&mi, 1, "sesame");
    let state_slot = mi.get_state(&meta).expect("authenticated get_state must dispatch");
    let account_slot = mi.get_account(&meta).expect("authenticated get_account must dispatch");
    let data_slot = mi
        .get_account_data(&meta, "12345".to_string())
        .expect("authenticated get_account_data must dispatch");
    assert_ne!(state_slot, account_slot);
    assert_eq!(mi.pop_command(), Some(TunnelCommand::GetState(state_slot)));
    assert_eq!(mi.pop_command(), Some(TunnelCommand::GetAccount(account_slot)));
    assert_eq!(
        mi.pop_command(),
        Some(TunnelCommand::GetAccountData(data_slot, "12345".to_string()))
    );
    assert_eq!(mi.pop_command(), None);
}

#[test]
fn relay_commands_carry_the_endpoint() {
    let mut mi = ManagementInterface::new("sesame".to_string());
    let meta = authed(&mi, 1, "sesame");
    let endpoint = RelayEndpoint {
        host: "relay.example".to_string(),
        port: 1300,
        protocol: TransportProtocol::Tcp,
    };
    let set_slot = mi
        .set_custom_relay(&meta, endpoint.clone())
        .expect("authenticated set_custom_relay must dispatch");
    let remove_slot = mi
        .remove_custom_relay(&meta)
        .expect("authenticated remove_custom_relay must dispatch");
    let account_slot = mi
        .set_account(&meta, Some("777".to_string()))
        .expect("authenticated set_account must dispatch");
    assert_eq!(
        mi.pop_command(),
        Some(TunnelCommand::SetCustomRelay(set_slot, Some(endpoint)))
    );
    assert_eq!(
        mi.pop_command(),
        Some(TunnelCommand::SetCustomRelay(remove_slot, None))
    );
    assert_eq!(
        mi.pop_command(),
        Some(TunnelCommand::SetAccount(account_slot, Some("777".to_string())))
    );
}

#[test]
fn set_autoconnect_dispatches_no_command() {
    let mut mi = ManagementInterface::new("sesame".to_string());
    let meta = authed(&mi, 1, "sesame");
    assert_eq!(mi.set_autoconnect(&meta, true), Ok(()));
    assert_eq!(mi.pop_command(), None);
}

#[test]
fn closed_channel_fails_every_dispatching_call() {
    let mut mi = ManagementInterface::new("sesame".to_string());
    let meta = authed(&mi, 1, "sesame");
    mi.close_channel();
    assert_eq!(mi.connect(&meta), Err(ApiError::ChannelClosed));
    assert_eq!(mi.disconnect(&meta), Err(ApiError::ChannelClosed));
    assert_eq!(mi.get_state(&meta), Err(ApiError::ChannelClosed));
    assert_eq!(mi.get_account(&meta), Err(ApiError::ChannelClosed));
    assert_eq!(
        mi.get_account_data(&meta, "12345".to_string()),
        Err(ApiError::ChannelClosed)
    );
    assert_eq!(mi.set_account(&meta, None), Err(ApiError::ChannelClosed));
    assert_eq!(mi.remove_custom_relay(&meta), Err(ApiError::ChannelClosed));
    assert_eq!(mi.pop_command(), None);
}

#[test]
fn abandoned_delivery_slot_resolves_to_channel_closed() {
    assert_eq!(resolve_reply::<DaemonState>(None), Err(ApiError::ChannelClosed));
    let state = DaemonState { state: SecurityState::Secured, target_state: TargetState::Secured };
    assert_eq!(resolve_reply(Some(state.clone())), Ok(state));
    assert_eq!(resolve_reply(Some(())), Ok(()));
}

#[test]
fn account_data_reply_translation() {
    assert_eq!(resolve_account_data(None), Err(ApiError::ChannelClosed));
    let data = AccountData { paid_until: "2026-01-01".to_string() };
    assert_eq!(resolve_account_data(Some(Ok(data.clone()))), Ok(data));
    let upstream = UpstreamError::Remote {
        code: -200,
        message: "no such account".to_string(),
        data: Some("12345".to_string()),
    };
    assert_eq!(
        resolve_account_data(Some(Err(upstream))),
        Err(ApiError::UpstreamRemote {
            code: -200,
            message: "no such account".to_string(),
            data: Some("12345".to_string()),
        })
    );
    assert_eq!(
        resolve_account_data(Some(Err(UpstreamError::Other))),
        Err(ApiError::Internal)
    );
}

#[test]
fn wire_codes_and_messages_are_stable() {
    assert_eq!(ApiError::Unauthenticated.wire_code(), INVALID_REQUEST_CODE);
    assert_eq!(ApiError::Unauthenticated.wire_code(), -32600);
    assert_eq!(ApiError::Unauthenticated.wire_message(), "Invalid request");
    assert_eq!(ApiError::InvalidSubscription.wire_code(), INVALID_PARAMS_CODE);
    assert_eq!(ApiError::InvalidSubscription.wire_code(), -32602);
    assert_eq!(ApiError::InvalidSubscription.wire_message(), "Invalid subscription");
    assert_eq!(ApiError::ChannelClosed.wire_code(), INTERNAL_ERROR_CODE);
    assert_eq!(ApiError::ChannelClosed.wire_code(), -32603);
    assert_eq!(ApiError::ChannelClosed.wire_message(), "Internal error");
    assert_eq!(ApiError::Internal.wire_code(), -32603);
    assert_eq!(ApiError::Internal.wire_message(), "Internal error");
    let upstream = ApiError::UpstreamRemote {
        code: -200,
        message: "no such account".to_string(),
        data: None,
    };
    assert_eq!(upstream.wire_code(), -200);
    assert_eq!(upstream.wire_message(), "no such account");
}

#[test]
fn unauthenticated_queries_answer_without_auth() {
    let mi = ManagementInterface::new("sesame".to_string());
    let countries = mi.get_countries().expect("get_countries must answer");
    assert!(countries.is_empty());
    let ip = mi.get_ip().expect("get_ip must answer");
    assert_eq!(ip.octets, [1, 2, 3, 4]);
    let location = mi.get_location().expect("get_location must answer");
    assert_eq!(location.latitude, 1);
    assert_eq!(location.longitude, 2);
    assert_eq!(location.country, "narnia");
    assert_eq!(location.city, "Le city");
}
