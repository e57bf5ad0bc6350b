use premarket_escrow::premarket_trade::common::{EconomicConfig, TechnicalConfig};
use premarket_escrow::premarket_trade::error::TradingError;
use premarket_escrow::premarket_trade::events::{
    EconomicConfigUpdated, RelayerAdded, RelayerRemoved, TechnicalConfigUpdated, TokenMapped,
    TokenMarketCreated, TradingPaused, TradingUnpaused,
};
use premarket_escrow::premarket_trade::instructions::manage_relayers::RelayerChange;
use premarket_escrow::premarket_trade::instructions::update_config::{
    update_economic_handler, update_technical_handler, validate_economic_config,
    validate_technical_config,
};
use premarket_escrow::premarket_trade::instructions::{
    create_token_market, emergency, initialize, manage_relayers, map_token, CreateTokenMarket,
    EmergencyControl, InitializeTrading, ManageRelayers, MapToken, UpdateEconomicConfig,
    UpdateTechnicalConfig,
};
use premarket_escrow::premarket_trade::state::{TokenMarket, TradeConfig};
use premarket_escrow::pubkey::Pubkey;
use premarket_escrow::user_profile::{
    close_profile, initialize_profile, update_profile, CloseProfile, InitializeProfile,
    UpdateProfile, UserProfile, UserProfileError,
};

fn key(tag: u8) -> Pubkey {
    Pubkey::new_from_array([tag; 32])
}

const ADMIN: u8 = 10;

fn policy() -> EconomicConfig {
    EconomicConfig {
        minimum_fill_amount: 10,
        maximum_order_amount: 1_000_000,
        buyer_collateral_ratio: 10_000,
        seller_collateral_ratio: 5_000,
        seller_reward_bps: 200,
        late_penalty_bps: 10_000,
    }
}

fn windows() -> TechnicalConfig {
    TechnicalConfig { min_settle_time: 3_600, max_settle_time: 2_592_000 }
}

fn config(relayers: Vec<Pubkey>, paused: bool) -> TradeConfig {
    TradeConfig {
        admin: key(ADMIN),
        vault_program: key(30),
        relayers,
        economic_config: policy(),
        technical_config: windows(),
        paused,
        bump: 5,
    }
}

fn blank_market() -> TokenMarket {
    TokenMarket {
        token_id: Pubkey::default(),
        symbol: String::new(),
        name: String::new(),
        real_mint: None,
        mapping_time: None,
        settle_time_limit: 0,
        created_at: 0,
    }
}

#[test]
fn setting_the_engine_up() {
    let mut ctx = InitializeTrading {
        admin: key(ADMIN),
        trade_config: TradeConfig {
            admin: key(1),
            vault_program: key(2),
            relayers: vec![key(3)],
            economic_config: EconomicConfig::default(),
            technical_config: TechnicalConfig::default(),
            paused: true,
            bump: 0,
        },
        trade_config_bump: 5,
    };
    assert_eq!(initialize::handler(&mut ctx, key(30), policy(), windows()), Ok(()));
    assert_eq!(ctx.trade_config, config(Vec::new(), false));
}

#[test]
fn the_trade_config_knows_its_admin_and_its_relayers() {
    let mut cfg = config(vec![key(20)], false);
    assert!(cfg.is_admin(&key(ADMIN)));
    assert!(!cfg.is_admin(&key(20)));
    assert!(cfg.is_relayer(&key(20)));
    assert!(!cfg.is_relayer(&key(ADMIN)));
    assert!(!cfg.is_paused());
    cfg.pause();
    assert!(cfg.is_paused());
    assert_eq!(cfg, config(vec![key(20)], true));
    cfg.unpause();
    assert_eq!(cfg, config(vec![key(20)], false));
}

#[test]
fn the_relayer_list_holds_ten_and_no_duplicates() {
    let mut cfg = config(Vec::new(), false);
    for tag in 20..30u8 {
        assert_eq!(cfg.add_relayer(key(tag)), Ok(()));
    }
    assert_eq!(cfg.relayers.len(), 10);
    let full = cfg.clone();
    assert_eq!(cfg.add_relayer(key(30)), Err(TradingError::TooManyRelayers));
    assert_eq!(cfg.add_relayer(key(25)), Err(TradingError::TooManyRelayers));
    assert_eq!(cfg, full);
    assert_eq!(cfg.remove_relayer(key(20)), Ok(()));
    assert_eq!(cfg.relayers, (21..30u8).map(key).collect::<Vec<_>>());
    assert_eq!(cfg.remove_relayer(key(20)), Err(TradingError::OrderNotFound));
    assert_eq!(cfg.add_relayer(key(25)), Err(TradingError::TooManyRelayers));
    assert_eq!(cfg.relayers.len(), 9);
    assert_eq!(cfg.add_relayer(key(20)), Ok(()));
    assert_eq!(cfg.relayers.last(), Some(&key(20)));
}

#[test]
fn the_config_replaces_a_policy_only_by_one_within_its_own_bounds() {
    let mut cfg = config(Vec::new(), false);
    let with = |change: &dyn Fn(&mut EconomicConfig)| {
        let mut p = policy();
        change(&mut p);
        p
    };
    let before = cfg.clone();
    for (bad, why) in [
        (with(&|p| p.buyer_collateral_ratio = 20_001), TradingError::InvalidCollateralRatio),
        (with(&|p| p.seller_collateral_ratio = 20_001), TradingError::InvalidCollateralRatio),
        (with(&|p| p.seller_reward_bps = 1_001), TradingError::InvalidRewardParameters),
        (with(&|p| p.late_penalty_bps = 10_001), TradingError::InvalidRewardParameters),
    ] {
        assert_eq!(cfg.update_economic_config(bad), Err(why));
        assert_eq!(cfg, before);
    }
    // the record's own check does not look at the amounts
    let edge = with(&|p| {
        p.buyer_collateral_ratio = 20_000;
        p.seller_collateral_ratio = 20_000;
        p.seller_reward_bps = 1_000;
        p.late_penalty_bps = 10_000;
        p.minimum_fill_amount = 0;
        p.maximum_order_amount = 0;
    });
    assert_eq!(cfg.update_economic_config(edge), Ok(()));
    assert_eq!(cfg.economic_config, edge);
    assert_eq!(
        cfg.update_technical_config(TechnicalConfig { min_settle_time: 2, max_settle_time: 1 }),
        Err(TradingError::InvalidTimeRange)
    );
    assert_eq!(cfg.technical_config, windows());
    let same = TechnicalConfig { min_settle_time: 7, max_settle_time: 7 };
    assert_eq!(cfg.update_technical_config(same), Ok(()));
    assert_eq!(cfg.technical_config, same);
}

#[test]
fn an_economic_policy_has_bounds() {
    assert_eq!(validate_economic_config(&policy()), Ok(()));
    let check = |change: &dyn Fn(&mut EconomicConfig)| {
        let mut p = policy();
        change(&mut p);
        validate_economic_config(&p)
    };
    assert_eq!(check(&|p| p.buyer_collateral_ratio = 20_000), Ok(()));
    assert_eq!(check(&|p| p.buyer_collateral_ratio = 20_001), Err(TradingError::InvalidCollateralRatio));
    assert_eq!(check(&|p| p.seller_collateral_ratio = 20_001), Err(TradingError::InvalidCollateralRatio));
    assert_eq!(check(&|p| p.seller_reward_bps = 1_000), Ok(()));
    assert_eq!(check(&|p| p.seller_reward_bps = 1_001), Err(TradingError::InvalidRewardParameters));
    assert_eq!(check(&|p| p.late_penalty_bps = 10_001), Err(TradingError::InvalidRewardParameters));
    assert_eq!(check(&|p| p.minimum_fill_amount = 0), Err(TradingError::ZeroAmount));
    assert_eq!(check(&|p| p.maximum_order_amount = 10), Err(TradingError::InvalidFillAmount));
    assert_eq!(check(&|p| p.maximum_order_amount = 11), Ok(()));
    assert_eq!(check(&|p| p.maximum_order_amount = 1_000_000_000_000_000), Ok(()));
    assert_eq!(check(&|p| p.maximum_order_amount = 1_000_000_000_000_001), Err(TradingError::ExceedOrderAmount));
    // the earlier reason wins
    assert_eq!(
        check(&|p| { p.minimum_fill_amount = 0; p.late_penalty_bps = 10_001 }),
        Err(TradingError::InvalidRewardParameters)
    );
}

#[test]
fn a_technical_policy_has_bounds() {
    assert_eq!(validate_technical_config(&windows()), Ok(()));
    let check = |min: u32, max: u32| {
        validate_technical_config(&TechnicalConfig { min_settle_time: min, max_settle_time: max })
    };
    assert_eq!(check(3_599, 2_592_000), Err(TradingError::InvalidSettleTime));
    assert_eq!(check(3_600, 2_592_001), Err(TradingError::InvalidSettleTime));
    assert_eq!(check(3_600, 3_600), Err(TradingError::InvalidSettleTime));
    assert_eq!(check(3_600, 3_601), Ok(()));
    // the policy that the engine starts with by default is not within bounds
    assert_eq!(validate_technical_config(&TechnicalConfig::default()), Err(TradingError::InvalidSettleTime));
}

#[test]
fn only_the_admin_replaces_a_policy_and_only_while_trading_runs() {
    let mut new_policy = policy();
    new_policy.seller_reward_bps = 999;
    let mut ctx = UpdateEconomicConfig { config: config(vec![key(20)], false), admin: key(ADMIN) };
    assert_eq!(
        update_economic_handler(&mut ctx, new_policy, 77),
        Ok(EconomicConfigUpdated { admin: key(ADMIN), old_config: policy(), new_config: new_policy, updated_at: 77 })
    );
    let mut expected = config(vec![key(20)], false);
    expected.economic_config = new_policy;
    assert_eq!(ctx.config, expected);
    let refused = |change: &dyn Fn(&mut UpdateEconomicConfig), policy: EconomicConfig, why: TradingError| {
        let mut ctx = UpdateEconomicConfig { config: config(vec![key(20)], false), admin: key(ADMIN) };
        change(&mut ctx);
        let before = ctx.clone();
        assert_eq!(update_economic_handler(&mut ctx, policy, 77), Err(why));
        assert_eq!(ctx, before);
    };
    let mut bad = policy();
    bad.minimum_fill_amount = 0;
    refused(&|c| c.admin = key(20), new_policy, TradingError::InvalidAdmin);
    refused(&|c| c.config.paused = true, new_policy, TradingError::TradingPaused);
    refused(&|_| {}, bad, TradingError::ZeroAmount);
    refused(&|c| c.admin = key(20), bad, TradingError::InvalidAdmin);

    let new_windows = TechnicalConfig { min_settle_time: 7_200, max_settle_time: 86_400 };
    let mut ctx = UpdateTechnicalConfig { config: config(vec![key(20)], false), admin: key(ADMIN) };
    assert_eq!(
        update_technical_handler(&mut ctx, new_windows, 78),
        Ok(TechnicalConfigUpdated { admin: key(ADMIN), old_config: windows(), new_config: new_windows, updated_at: 78 })
    );
    assert_eq!(ctx.config.technical_config, new_windows);
    assert_eq!(ctx.config.economic_config, policy());
    let before = ctx.clone();
    assert_eq!(
        update_technical_handler(&mut ctx, TechnicalConfig { min_settle_time: 1, max_settle_time: 86_400 }, 79),
        Err(TradingError::InvalidSettleTime)
    );
    ctx.admin = key(20);
    assert_eq!(update_technical_handler(&mut ctx, new_windows, 79), Err(TradingError::InvalidAdmin));
    ctx.admin = key(ADMIN);
    ctx.config.paused = true;
    assert_eq!(update_technical_handler(&mut ctx, new_windows, 79), Err(TradingError::TradingPaused));
    ctx.config.paused = false;
    assert_eq!(ctx, before);
}

#[test]
fn relayers_are_admitted_and_dismissed_by_the_admin() {
    let mut ctx = ManageRelayers { config: config(vec![key(20)], false), admin: key(ADMIN) };
    assert_eq!(
        manage_relayers::handler(&mut ctx, key(21), true, 5),
        Ok(RelayerChange::Added(RelayerAdded { admin: key(ADMIN), relayer: key(21), total_relayers: 2, timestamp: 5 }))
    );
    assert_eq!(ctx.config.relayers, vec![key(20), key(21)]);
    assert_eq!(
        manage_relayers::handler(&mut ctx, key(20), false, 6),
        Ok(RelayerChange::Removed(RelayerRemoved { admin: key(ADMIN), relayer: key(20), total_relayers: 1, timestamp: 6 }))
    );
    assert_eq!(ctx.config.relayers, vec![key(21)]);
    let refused = |change: &dyn Fn(&mut ManageRelayers), relayer: Pubkey, add: bool, why: TradingError| {
        let mut ctx = ManageRelayers { config: config(vec![key(20)], false), admin: key(ADMIN) };
        change(&mut ctx);
        let before = ctx.clone();
        assert_eq!(manage_relayers::handler(&mut ctx, relayer, add, 7), Err(why));
        assert_eq!(ctx, before);
    };
    refused(&|c| c.admin = key(20), key(21), true, TradingError::InvalidAdmin);
    refused(&|c| c.config.paused = true, key(21), true, TradingError::TradingPaused);
    refused(&|_| {}, Pubkey::default(), true, TradingError::InvalidTokenAddress);
    refused(&|_| {}, Pubkey::default(), false, TradingError::InvalidTokenAddress);
    refused(&|_| {}, key(20), true, TradingError::TooManyRelayers);
    refused(&|c| c.config.relayers = (20..30u8).map(key).collect(), key(30), true, TradingError::TooManyRelayers);
    refused(&|_| {}, key(21), false, TradingError::UnauthorizedRelayer);
}

#[test]
fn a_market_is_created_with_a_symbol_a_name_and_a_window() {
    let mut ctx = CreateTokenMarket {
        token_market: blank_market(),
        token_market_key: key(3),
        config: config(Vec::new(), false),
        admin: key(ADMIN),
    };
    let created = create_token_market::handler(&mut ctx, String::from("PRE"), String::from("Pre-market token"), 3_600, 9);
    assert_eq!(
        created,
        Ok(TokenMarketCreated {
            token_id: key(3),
            symbol: String::from("PRE"),
            name: String::from("Pre-market token"),
            settle_time_limit: 3_600,
            created_at: 9,
        })
    );
    assert_eq!(
        ctx.token_market,
        TokenMarket {
            token_id: key(3),
            symbol: String::from("PRE"),
            name: String::from("Pre-market token"),
            real_mint: None,
            mapping_time: None,
            settle_time_limit: 3_600,
            created_at: 9,
        }
    );
    assert!(!ctx.token_market.is_mapped());
    assert_eq!(ctx.token_market.get_grace_period(), 3_600);
}

#[test]
fn a_market_is_refused_for_each_reason_and_nothing_changes() {
    let refused = |change: &dyn Fn(&mut CreateTokenMarket), symbol: &str, name: &str, window: u32, why: TradingError| {
        let mut ctx = CreateTokenMarket {
            token_market: blank_market(),
            token_market_key: key(3),
            config: config(Vec::new(), false),
            admin: key(ADMIN),
        };
        change(&mut ctx);
        let before = ctx.clone();
        assert_eq!(
            create_token_market::handler(&mut ctx, String::from(symbol), String::from(name), window, 9),
            Err(why)
        );
        assert_eq!(ctx, before);
    };
    let name50 = "n".repeat(50);
    let name51 = "n".repeat(51);
    refused(&|_| {}, "ELEVENCHARS", "name", 3_600, TradingError::SymbolTooLong);
    // ten characters that take more than ten bytes
    refused(&|_| {}, "ééééé\u{e9}", "name", 3_600, TradingError::SymbolTooLong);
    refused(&|_| {}, "PRE", &name51, 3_600, TradingError::NameTooLong);
    refused(&|_| {}, "PRE", "name", 3_599, TradingError::InvalidSettleTime);
    refused(&|_| {}, "PRE", "name", 2_592_001, TradingError::InvalidSettleTime);
    refused(&|c| c.admin = key(20), "PRE", "name", 3_600, TradingError::InvalidAdmin);
    refused(&|c| c.config.paused = true, "PRE", "name", 3_600, TradingError::TradingPaused);
    refused(&|_| {}, "", "name", 3_600, TradingError::SymbolTooLong);
    refused(&|_| {}, " \t\n ", "name", 3_600, TradingError::SymbolTooLong);
    refused(&|_| {}, "PRE", "   ", 3_600, TradingError::NameTooLong);
    refused(&|_| {}, "PRE", "", 3_600, TradingError::NameTooLong);
    let mut ctx = CreateTokenMarket {
        token_market: blank_market(),
        token_market_key: key(3),
        config: config(Vec::new(), false),
        admin: key(ADMIN),
    };
    assert!(create_token_market::handler(&mut ctx, String::from("TENLETTERS"), name50, 2_592_000, 9).is_ok());
    assert_eq!(TokenMarket::validate_symbol("TENLETTERS"), Ok(()));
    assert_eq!(TokenMarket::validate_symbol("ELEVENCHARS"), Err(TradingError::SymbolTooLong));
    assert_eq!(TokenMarket::validate_symbol(""), Ok(()));
    assert_eq!(TokenMarket::validate_name(&"n".repeat(50)), Ok(()));
    assert_eq!(TokenMarket::validate_name(&name51), Err(TradingError::NameTooLong));
}

#[test]
fn the_real_token_is_mapped_once() {
    let market = || {
        let mut m = blank_market();
        m.initialize(key(3), String::from("PRE"), String::from("Pre-market token"), 3_600, 9);
        m
    };
    let mut ctx = MapToken {
        token_market: market(),
        token_market_key: key(3),
        real_mint: key(8),
        config: config(Vec::new(), false),
        admin: key(ADMIN),
    };
    assert_eq!(
        map_token::handler(&mut ctx, key(8), 50),
        Ok(TokenMapped { token_id: key(3), real_mint: key(8), mapping_time: 50 })
    );
    assert_eq!(ctx.token_market.real_mint, Some(key(8)));
    assert_eq!(ctx.token_market.mapping_time, Some(50));
    assert!(ctx.token_market.is_mapped());
    let mapped = ctx.clone();
    assert_eq!(map_token::handler(&mut ctx, key(8), 60), Err(TradingError::TokenAlreadyMapped));
    assert_eq!(ctx, mapped);
    let mut again = mapped.token_market.clone();
    assert_eq!(again.map_token(key(9), 70), Err(TradingError::TokenAlreadyMapped));
    assert_eq!(again, mapped.token_market);
    let mut fresh = market();
    assert_eq!(fresh.map_token(key(9), 70), Ok(()));
    assert_eq!(fresh.real_mint, Some(key(9)));
    assert_eq!(fresh.mapping_time, Some(70));

    let refused = |change: &dyn Fn(&mut MapToken), mint: Pubkey, why: TradingError| {
        let mut ctx = MapToken {
            token_market: market(),
            token_market_key: key(3),
            real_mint: key(8),
            config: config(Vec::new(), false),
            admin: key(ADMIN),
        };
        change(&mut ctx);
        let before = ctx.clone();
        assert_eq!(map_token::handler(&mut ctx, mint, 50), Err(why));
        assert_eq!(ctx, before);
    };
    refused(&|c| c.admin = key(20), key(8), TradingError::InvalidAdmin);
    refused(&|c| c.config.paused = true, key(8), TradingError::TradingPaused);
    refused(&|_| {}, key(9), TradingError::InvalidTokenMint);
    refused(&|c| c.token_market_key = key(4), key(8), TradingError::InvalidTokenAddress);
}

#[test]
fn only_the_admin_pauses_and_resumes_trading() {
    let mut ctx = EmergencyControl { config: config(vec![key(20)], false), admin: key(20) };
    assert_eq!(emergency::pause_handler(&mut ctx, 1), Err(TradingError::InvalidAdmin));
    assert_eq!(emergency::unpause_handler(&mut ctx, 1), Err(TradingError::InvalidAdmin));
    ctx.admin = key(ADMIN);
    assert_eq!(emergency::unpause_handler(&mut ctx, 1), Err(TradingError::TradingNotActive));
    assert_eq!(ctx.config, config(vec![key(20)], false));
    assert_eq!(emergency::pause_handler(&mut ctx, 2), Ok(TradingPaused { admin: key(ADMIN), timestamp: 2 }));
    assert_eq!(ctx.config, config(vec![key(20)], true));
    assert_eq!(emergency::pause_handler(&mut ctx, 3), Err(TradingError::TradingPaused));
    assert_eq!(emergency::unpause_handler(&mut ctx, 4), Ok(TradingUnpaused { admin: key(ADMIN), timestamp: 4 }));
    assert_eq!(ctx.config, config(vec![key(20)], false));
}

fn blank_profile() -> UserProfile {
    UserProfile {
        authority: Pubkey::default(),
        name: String::new(),
        created_at: 0,
        updated_at: None,
        version: 0,
        bump: 0,
    }
}

#[test]
fn a_profile_is_started_renamed_and_closed_by_its_user() {
    let mut start = InitializeProfile { profile: blank_profile(), profile_bump: 9, user: key(1) };
    assert_eq!(initialize_profile(&mut start, String::from("ada"), 100), Ok(()));
    let started = UserProfile {
        authority: key(1),
        name: String::from("ada"),
        created_at: 100,
        updated_at: None,
        version: 1,
        bump: 9,
    };
    assert_eq!(start.profile, started);
    let mut rename = UpdateProfile { profile: started.clone(), user: key(1) };
    assert_eq!(update_profile(&mut rename, String::from("lovelace"), 200), Ok(()));
    let mut renamed = started.clone();
    renamed.name = String::from("lovelace");
    renamed.updated_at = Some(200);
    assert_eq!(rename.profile, renamed);
    rename.user = key(2);
    assert_eq!(update_profile(&mut rename, String::from("x"), 300), Err(UserProfileError::Unauthorized));
    assert_eq!(update_profile(&mut rename, String::new(), 300), Err(UserProfileError::Unauthorized));
    assert_eq!(rename.profile, renamed);
    assert_eq!(close_profile(&CloseProfile { profile: renamed.clone(), user: key(1) }), Ok(()));
    assert_eq!(
        close_profile(&CloseProfile { profile: renamed, user: key(2) }),
        Err(UserProfileError::Unauthorized)
    );
}

#[test]
fn a_profile_name_has_one_to_thirty_two_bytes() {
    let name32 = "n".repeat(32);
    let name33 = "n".repeat(33);
    let mut start = InitializeProfile { profile: blank_profile(), profile_bump: 9, user: key(1) };
    assert_eq!(initialize_profile(&mut start, name33.clone(), 100), Err(UserProfileError::NameTooLong));
    assert_eq!(initialize_profile(&mut start, String::new(), 100), Err(UserProfileError::NameEmpty));
    assert_eq!(start.profile, blank_profile());
    assert_eq!(initialize_profile(&mut start, name32.clone(), 100), Ok(()));
    let mut rename = UpdateProfile { profile: start.profile.clone(), user: key(1) };
    assert_eq!(update_profile(&mut rename, name33, 200), Err(UserProfileError::NameTooLong));
    assert_eq!(update_profile(&mut rename, String::new(), 200), Err(UserProfileError::NameEmpty));
    assert_eq!(rename.profile, start.profile);
    // seventeen characters of two bytes each
    assert_eq!(
        update_profile(&mut rename, "é".repeat(17), 200),
        Err(UserProfileError::NameTooLong)
    );
    assert_eq!(update_profile(&mut rename, "é".repeat(16), 200), Ok(()));
}
