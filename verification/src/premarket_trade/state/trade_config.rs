//! The engine's configuration: who administers it, which relayers may
//! match orders, the two policies, and whether trading is paused.
use vstd::prelude::*;
use crate::premarket_trade::common::{
    EconomicConfig, TechnicalConfig, MAX_COLLATERAL_RATIO, MAX_PENALTY_BPS, MAX_REWARD_BPS,
};
use crate::premarket_trade::error::TradingError;
use crate::pubkey::{
    contains, first_at, lemma_push_keeps_distinct, lemma_remove_keeps_distinct, position,
    removed_first, Pubkey,
};

verus! {

/// Most relayers that the engine admits.
pub const MAX_RELAYERS: usize = 10;

/// The engine's one configuration record.
#[derive(Clone, Debug, PartialEq, Eq)]
pub struct TradeConfig {
    pub admin: Pubkey,
    pub vault_program: Pubkey,
    pub relayers: Vec<Pubkey>,
    pub economic_config: EconomicConfig,
    pub technical_config: TechnicalConfig,
    pub paused: bool,
    pub bump: u8,
}

impl TradeConfig {
    /// Bytes that the record occupies in storage with a full relayer list.
    pub const INIT_SPACE: usize = 8 + 32 + 32 + 4 + (32 * 10) + (2 * 6) + (4 * 2) + 1 + 1;

    /// The relayer list holds at most ten relayers, none of them twice.
    pub open spec fn wf(self) -> bool {
        &&& self.relayers@.len() <= MAX_RELAYERS
        &&& self.relayers@.no_duplicates()
    }

    /// Everything but the relayer list is as in `before`.
    pub open spec fn same_settings(self, before: TradeConfig) -> bool {
        &&& self.admin == before.admin
        &&& self.vault_program == before.vault_program
        &&& self.economic_config == before.economic_config
        &&& self.technical_config == before.technical_config
        &&& self.paused == before.paused
        &&& self.bump == before.bump
    }

    /// Everything but the two policies is as in `before`.
    pub open spec fn same_but_policies(self, before: TradeConfig) -> bool {
        &&& self.admin == before.admin
        &&& self.vault_program == before.vault_program
        &&& self.relayers@ == before.relayers@
        &&& self.paused == before.paused
        &&& self.bump == before.bump
    }

    /// Whether `relayer` can be admitted.
    pub open spec fn spec_add_relayer(self, relayer: Pubkey) -> Result<(), TradingError> {
        if self.relayers@.len() >= MAX_RELAYERS || self.relayers@.contains(relayer) {
            Err(TradingError::TooManyRelayers)
        } else {
            Ok(())
        }
    }

    /// Whether `relayer` can be dismissed.
    pub open spec fn spec_remove_relayer(self, relayer: Pubkey) -> Result<(), TradingError> {
        if self.relayers@.contains(relayer) {
            Ok(())
        } else {
            Err(TradingError::OrderNotFound)
        }
    }

    /// Starts the configuration: not paused, no relayers.
    pub fn initialize(
        &mut self,
        admin: Pubkey,
        vault_program: Pubkey,
        economic_config: EconomicConfig,
        technical_config: TechnicalConfig,
        bump: u8,
    )
        ensures
            final(self).admin == admin,
            final(self).vault_program == vault_program,
            final(self).relayers@ == Seq::<Pubkey>::empty(),
            final(self).economic_config == economic_config,
            final(self).technical_config == technical_config,
            !final(self).paused,
            final(self).bump == bump,
            final(self).wf(),
    {
        self.admin = admin;
        self.vault_program = vault_program;
        self.relayers = Vec::new();
        self.economic_config = economic_config;
        self.technical_config = technical_config;
        self.paused = false;
        self.bump = bump;
    }

    /// Whether `user` administers the engine.
    pub fn is_admin(&self, user: &Pubkey) -> (r: bool)
        ensures
            r == (self.admin == *user),
    {
        self.admin == *user
    }

    /// Whether `user` is an admitted relayer.
    pub fn is_relayer(&self, user: &Pubkey) -> (r: bool)
        ensures
            r == self.relayers@.contains(*user),
    {
        contains(&self.relayers, user)
    }

    /// Admits `relayer`. An eleventh relayer, or one that is admitted
    /// already, is refused as `TooManyRelayers` and the list stays as it
    /// was.
    pub fn add_relayer(&mut self, relayer: Pubkey) -> (r: Result<(), TradingError>)
        ensures
            r == old(self).spec_add_relayer(relayer),
            r is Ok ==> final(self).relayers@ == old(self).relayers@.push(relayer),
            r is Err ==> final(self).relayers@ == old(self).relayers@,
            final(self).same_settings(*old(self)),
            old(self).wf() ==> final(self).wf(),
    {
        if self.relayers.len() >= MAX_RELAYERS {
            return Err(TradingError::TooManyRelayers);
        }
        if contains(&self.relayers, &relayer) {
            return Err(TradingError::TooManyRelayers);
        }
        proof {
            lemma_push_keeps_distinct(self.relayers@, relayer);
        }
        self.relayers.push(relayer);
        Ok(())
    }

    /// Dismisses `relayer`, where it stands first; the others keep their
    /// order. One that is not admitted is reported as `OrderNotFound` and
    /// the list stays as it was.
    pub fn remove_relayer(&mut self, relayer: Pubkey) -> (r: Result<(), TradingError>)
        ensures
            r == old(self).spec_remove_relayer(relayer),
            r is Ok ==> removed_first(old(self).relayers@, relayer, final(self).relayers@),
            r is Err ==> final(self).relayers@ == old(self).relayers@,
            final(self).same_settings(*old(self)),
            old(self).wf() ==> final(self).wf(),
            old(self).wf() && r is Ok ==> !final(self).relayers@.contains(relayer),
    {
        match position(&self.relayers, &relayer) {
            Some(at) => {
                proof {
                    lemma_remove_keeps_distinct(self.relayers@, at as int);
                    assert(first_at(self.relayers@, relayer, at as int));
                }
                self.relayers.remove(at);
                Ok(())
            },
            None => Err(TradingError::OrderNotFound),
        }
    }

    /// Whether the four ratios of `new_config` are within their bounds.
    pub open spec fn spec_check_ratios(new_config: EconomicConfig) -> Result<(), TradingError> {
        if new_config.buyer_collateral_ratio > MAX_COLLATERAL_RATIO {
            Err(TradingError::InvalidCollateralRatio)
        } else if new_config.seller_collateral_ratio > MAX_COLLATERAL_RATIO {
            Err(TradingError::InvalidCollateralRatio)
        } else if new_config.seller_reward_bps > MAX_REWARD_BPS {
            Err(TradingError::InvalidRewardParameters)
        } else if new_config.late_penalty_bps > MAX_PENALTY_BPS {
            Err(TradingError::InvalidRewardParameters)
        } else {
            Ok(())
        }
    }

    /// Replaces the economic policy where the four ratios of the new one
    /// are within their bounds: collateral up to 200%, reward up to 10%,
    /// penalty up to 100%. Otherwise the policy stays as it was.
    pub fn update_economic_config(&mut self, new_config: EconomicConfig) -> (r: Result<
        (),
        TradingError,
    >)
        ensures
            r == Self::spec_check_ratios(new_config),
            r is Ok ==> final(self).economic_config == new_config,
            r is Err ==> final(self).economic_config == old(self).economic_config,
            final(self).technical_config == old(self).technical_config,
            final(self).same_but_policies(*old(self)),
    {
        if new_config.buyer_collateral_ratio > MAX_COLLATERAL_RATIO {
            return Err(TradingError::InvalidCollateralRatio);
        }
        if new_config.seller_collateral_ratio > MAX_COLLATERAL_RATIO {
            return Err(TradingError::InvalidCollateralRatio);
        }
        if new_config.seller_reward_bps > MAX_REWARD_BPS {
            return Err(TradingError::InvalidRewardParameters);
        }
        if new_config.late_penalty_bps > MAX_PENALTY_BPS {
            return Err(TradingError::InvalidRewardParameters);
        }
        self.economic_config = new_config;
        Ok(())
    }

    /// Whether the shortest window of `new_config` is no longer than its
    /// longest.
    pub open spec fn spec_check_windows(new_config: TechnicalConfig) -> Result<(), TradingError> {
        if new_config.min_settle_time > new_config.max_settle_time {
            Err(TradingError::InvalidTimeRange)
        } else {
            Ok(())
        }
    }

    /// Replaces the technical policy where the shortest window of the new
    /// one is no longer than its longest. Otherwise the policy stays as it
    /// was.
    pub fn update_technical_config(&mut self, new_config: TechnicalConfig) -> (r: Result<
        (),
        TradingError,
    >)
        ensures
            r == Self::spec_check_windows(new_config),
            r is Ok ==> final(self).technical_config == new_config,
            r is Err ==> final(self).technical_config == old(self).technical_config,
            final(self).economic_config == old(self).economic_config,
            final(self).same_but_policies(*old(self)),
    {
        if new_config.min_settle_time > new_config.max_settle_time {
            return Err(TradingError::InvalidTimeRange);
        }
        self.technical_config = new_config;
        Ok(())
    }

    /// Whether trading is paused.
    pub fn is_paused(&self) -> (r: bool)
        ensures
            r == self.paused,
    {
        self.paused
    }

    /// Pauses trading.
    pub fn pause(&mut self)
        ensures
            final(self).paused,
            final(self).relayers@ == old(self).relayers@,
            final(self).admin == old(self).admin,
            final(self).vault_program == old(self).vault_program,
            final(self).economic_config == old(self).economic_config,
            final(self).technical_config == old(self).technical_config,
            final(self).bump == old(self).bump,
    {
        self.paused = true;
    }

    /// Resumes trading.
    pub fn unpause(&mut self)
        ensures
            !final(self).paused,
            final(self).relayers@ == old(self).relayers@,
            final(self).admin == old(self).admin,
            final(self).vault_program == old(self).vault_program,
            final(self).economic_config == old(self).economic_config,
            final(self).technical_config == old(self).technical_config,
            final(self).bump == old(self).bump,
    {
        self.paused = false;
    }
}

} // verus!
