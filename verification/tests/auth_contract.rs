use torchflower::auth::{
    authenticate, batch_authenticate, refresh, AuthConfig, AuthError, AuthFlow, AuthTokens,
    BEDROCK_RELYING_PARTY, LIVE_CLIENT_ID, PLAYFAB_RELYING_PARTY,
};

#[test]
fn auth_contract_uses_required_relying_parties() {
    assert_eq!(BEDROCK_RELYING_PARTY, "https://multiplayer.minecraft.net/");
    assert_eq!(PLAYFAB_RELYING_PARTY, "http://playfab.xboxlive.com/");
}

#[test]
fn offline_sign_in_names_the_chain_after_the_user() {
    let config = AuthConfig::offline("Steve");
    assert_eq!(config.client_id, "");
    let tokens = authenticate(&config).unwrap();
    assert_eq!(tokens.gamertag.as_deref(), Some("Steve"));
    assert_eq!(tokens.bedrock_chain, vec!["offline:Steve".to_string()]);
    assert_eq!(tokens.xuid, None);
    assert_eq!(tokens.microsoft_access_token, None);
}

#[test]
fn interactive_flows_are_not_signed_in_here() {
    let live = AuthConfig::device_code();
    assert_eq!(live.client_id, LIVE_CLIENT_ID);
    assert_eq!(authenticate(&live), Err(AuthError::InteractiveFlowRequired));
    let msal = AuthConfig { client_id: "id".to_string(), flow: AuthFlow::Msal };
    assert_eq!(authenticate(&msal), Err(AuthError::InteractiveFlowRequired));
}

#[test]
fn refresh_needs_a_refresh_token() {
    let tokens = AuthTokens::empty();
    assert_eq!(refresh(&tokens), Err(AuthError::MissingRefreshToken));
    let mut with_refresh = AuthTokens::empty();
    with_refresh.microsoft_refresh_token = Some("refresh".to_string());
    assert_eq!(refresh(&with_refresh), Err(AuthError::InteractiveFlowRequired));
}

#[test]
fn batch_sign_in_keeps_each_account_once() {
    let accounts = vec!["a".to_string(), "b".to_string(), "a".to_string()];
    let config = AuthConfig::offline("bot");
    let entries = batch_authenticate(&accounts, &config, 0);
    let keys: Vec<&str> = entries.iter().map(|(k, _)| k.as_str()).collect();
    assert_eq!(keys, vec!["a", "b"]);
    for (_, tokens) in &entries {
        assert_eq!(tokens.bedrock_chain, vec!["offline:bot".to_string()]);
    }
    let none = batch_authenticate(&accounts, &AuthConfig::device_code(), 2);
    assert!(none.is_empty());
}
