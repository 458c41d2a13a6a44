use rug_surfer_bot::cluster::{analyze_addresses, ClusterProfile};
use rug_surfer_bot::types::{MonitoringContext, TelegramState};

#[test]
fn empty_profile_has_nothing() {
    let profile = ClusterProfile::empty();
    assert_eq!(profile.suspicious_wallets, 0);
    assert!(profile.tagged_wallets.is_empty());
    assert!(profile.lp_candidates.is_empty());
}

#[test]
fn analyze_tags_trailing_zero_and_f_and_collects_lp_candidates() {
    let addresses = vec![
        String::from("WALLET_A0"),
        String::from("Lending_99f"),
        String::from("WALLET_B1"),
        String::from("LP_XYZ"),
        String::from(""),
    ];
    let profile = analyze_addresses(&addresses);
    assert_eq!(profile.suspicious_wallets, 2);
    assert_eq!(
        profile.tagged_wallets,
        vec![String::from("WALLET_A0"), String::from("Lending_99f")]
    );
    assert_eq!(
        profile.lp_candidates,
        vec![String::from("Lending_99f"), String::from("LP_XYZ")]
    );
}

#[test]
fn analyze_of_nothing_is_empty() {
    let profile = analyze_addresses(&[]);
    assert_eq!(profile.suspicious_wallets, 0);
    assert!(profile.tagged_wallets.is_empty());
    assert!(profile.lp_candidates.is_empty());
}

#[test]
fn monitoring_context_targets() {
    let mut ctx = MonitoringContext::new();
    assert!(ctx.active_chat.is_none());
    assert!(ctx.tracked_mint.is_none());
    ctx.set_target(42, String::from("MINT_BBBB"));
    assert_eq!(ctx.active_chat, Some(42));
    assert_eq!(ctx.tracked_mint, Some(String::from("MINT_BBBB")));
    ctx.clear_target();
    assert!(ctx.active_chat.is_none());
    assert!(ctx.tracked_mint.is_none());
}

#[test]
fn telegram_states_are_distinct() {
    assert_ne!(TelegramState::Idle, TelegramState::AwaitingMint);
    assert_ne!(TelegramState::AwaitingSimulationAmount, TelegramState::AwaitingSellSelection);
    assert_eq!(TelegramState::Idle, TelegramState::Idle);
}
