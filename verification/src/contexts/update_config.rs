//! Changes to the configuration.

use vstd::prelude::*;

use crate::constants::{MAX_FEE_BPS, MAX_TREASURY_SPLIT_BPS};
use crate::errors::ErrorCode;
use crate::pubkey::{base58_text, Pubkey};
use crate::state::config::{ConfigChange, ConfigUpdated, ProgramConfig};
use crate::utils::text::{bool_text, bool_to_string, decimal_text, signed_to_string, unsigned_to_string};

verus! {

/// The accounts of `update_config`.
#[derive(Clone, Copy, Debug, PartialEq, Eq)]
pub struct UpdateConfig {
    /// The caller.
    pub admin: Pubkey,
    /// The configuration record.
    pub config: ProgramConfig,
}

/// The new value of a field: the one supplied, or else the one it has.
pub open spec fn supplied_or<T>(new_value: Option<T>, old_value: T) -> T {
    match new_value {
        Some(value) => value,
        None => old_value,
    }
}

/// The audit record for an address field, if a new value is supplied.
pub open spec fn key_change(field: Seq<char>, old_value: Pubkey, new_value: Option<Pubkey>) -> Seq<
    ConfigChange,
> {
    match new_value {
        Some(value) => seq![
            ConfigChange {
                field,
                old_value: base58_text(old_value.0@),
                new_value: base58_text(value.0@),
            },
        ],
        None => Seq::empty(),
    }
}

/// The audit record for a rate field, if a new value is supplied.
pub open spec fn rate_change(field: Seq<char>, old_value: u16, new_value: Option<u16>) -> Seq<
    ConfigChange,
> {
    match new_value {
        Some(value) => seq![
            ConfigChange {
                field,
                old_value: decimal_text(old_value as int),
                new_value: decimal_text(value as int),
            },
        ],
        None => Seq::empty(),
    }
}

/// The audit record for a field of seconds, if a new value is supplied.
pub open spec fn seconds_change(field: Seq<char>, old_value: i64, new_value: Option<i64>) -> Seq<
    ConfigChange,
> {
    match new_value {
        Some(value) => seq![
            ConfigChange {
                field,
                old_value: decimal_text(old_value as int),
                new_value: decimal_text(value as int),
            },
        ],
        None => Seq::empty(),
    }
}

/// The audit record for a flag, if a new value is supplied.
pub open spec fn flag_change(field: Seq<char>, old_value: bool, new_value: Option<bool>) -> Seq<
    ConfigChange,
> {
    match new_value {
        Some(value) => seq![
            ConfigChange { field, old_value: bool_text(old_value), new_value: bool_text(value) },
        ],
        None => Seq::empty(),
    }
}

impl UpdateConfig {
    /// The error with which an update is rejected, if it is: the caller is not
    /// the admin, or a supplied rate is above its bound. The rates are checked
    /// in the order split, partial fee, edit penalty.
    pub open spec fn rejection(
        self,
        new_treasury_split_bps: Option<u16>,
        new_partial_fee_bps: Option<u16>,
        new_edit_penalty_bps: Option<u16>,
    ) -> Option<ErrorCode> {
        if self.admin != self.config.admin {
            Some(ErrorCode::Unauthorized)
        } else if new_treasury_split_bps matches Some(bps) && bps > MAX_TREASURY_SPLIT_BPS {
            Some(ErrorCode::InvalidTreasurySplit)
        } else if new_partial_fee_bps matches Some(bps) && bps > MAX_FEE_BPS {
            Some(ErrorCode::InvalidFee)
        } else if new_edit_penalty_bps matches Some(bps) && bps > MAX_FEE_BPS {
            Some(ErrorCode::InvalidFee)
        } else {
            None
        }
    }

    /// The configuration after an accepted update: each supplied value
    /// replaces the one of its field.
    pub open spec fn updated(
        self,
        new_treasury: Option<Pubkey>,
        new_charity: Option<Pubkey>,
        new_treasury_split_bps: Option<u16>,
        new_partial_fee_bps: Option<u16>,
        new_edit_penalty_bps: Option<u16>,
        new_grace_period_seconds: Option<i64>,
        paused: Option<bool>,
    ) -> ProgramConfig {
        ProgramConfig {
            admin: self.config.admin,
            treasury: supplied_or(new_treasury, self.config.treasury),
            charity: supplied_or(new_charity, self.config.charity),
            treasury_split_bps: supplied_or(new_treasury_split_bps, self.config.treasury_split_bps),
            partial_fee_bps: supplied_or(new_partial_fee_bps, self.config.partial_fee_bps),
            edit_penalty_bps: supplied_or(new_edit_penalty_bps, self.config.edit_penalty_bps),
            grace_period_seconds: supplied_or(
                new_grace_period_seconds,
                self.config.grace_period_seconds,
            ),
            paused: supplied_or(paused, self.config.paused),
            bump: self.config.bump,
        }
    }

    /// The audit records of an accepted update: one for each supplied value,
    /// in the order of the fields, with the field's name, its old value and
    /// its new value.
    pub open spec fn changes(
        self,
        new_treasury: Option<Pubkey>,
        new_charity: Option<Pubkey>,
        new_treasury_split_bps: Option<u16>,
        new_partial_fee_bps: Option<u16>,
        new_edit_penalty_bps: Option<u16>,
        new_grace_period_seconds: Option<i64>,
        paused: Option<bool>,
    ) -> Seq<ConfigChange> {
        key_change("treasury"@, self.config.treasury, new_treasury) + key_change(
            "charity"@,
            self.config.charity,
            new_charity,
        ) + rate_change("treasury_split_bps"@, self.config.treasury_split_bps, new_treasury_split_bps)
            + rate_change("partial_fee_bps"@, self.config.partial_fee_bps, new_partial_fee_bps)
            + rate_change("edit_penalty_bps"@, self.config.edit_penalty_bps, new_edit_penalty_bps)
            + seconds_change(
            "grace_period_seconds"@,
            self.config.grace_period_seconds,
            new_grace_period_seconds,
        ) + flag_change("paused"@, self.config.paused, paused)
    }

    /// Changes the configuration. Only the admin may; each of the seven fields
    /// is changed if a value for it is supplied. A supplied rate above its
    /// bound rejects the whole update. Returns one audit record for each
    /// change.
    pub fn update_config(
        &mut self,
        new_treasury: Option<Pubkey>,
        new_charity: Option<Pubkey>,
        new_treasury_split_bps: Option<u16>,
        new_partial_fee_bps: Option<u16>,
        new_edit_penalty_bps: Option<u16>,
        new_grace_period_seconds: Option<i64>,
        paused: Option<bool>,
    ) -> (result: Result<Vec<ConfigUpdated>, ErrorCode>)
        ensures
            final(self).admin == old(self).admin,
            match old(self).rejection(
                new_treasury_split_bps,
                new_partial_fee_bps,
                new_edit_penalty_bps,
            ) {
                Some(e) => result == Err::<Vec<ConfigUpdated>, ErrorCode>(e) && final(self).config == old(self).config,
                None => {
                    &&& final(self).config == old(self).updated(
                        new_treasury,
                        new_charity,
                        new_treasury_split_bps,
                        new_partial_fee_bps,
                        new_edit_penalty_bps,
                        new_grace_period_seconds,
                        paused,
                    )
                    &&& result matches Ok(events) && events.deep_view() == old(self).changes(
                        new_treasury,
                        new_charity,
                        new_treasury_split_bps,
                        new_partial_fee_bps,
                        new_edit_penalty_bps,
                        new_grace_period_seconds,
                        paused,
                    )
                },
            },
            old(self).config.well_formed() ==> final(self).config.well_formed(),
    {
        if self.admin != self.config.admin {
            return Err(ErrorCode::Unauthorized);
        }
        if let Some(split_bps) = new_treasury_split_bps {
            if split_bps > MAX_TREASURY_SPLIT_BPS {
                return Err(ErrorCode::InvalidTreasurySplit);
            }
        }
        if let Some(fee_bps) = new_partial_fee_bps {
            if fee_bps > MAX_FEE_BPS {
                return Err(ErrorCode::InvalidFee);
            }
        }
        if let Some(penalty_bps) = new_edit_penalty_bps {
            if penalty_bps > MAX_FEE_BPS {
                return Err(ErrorCode::InvalidFee);
            }
        }
        let mut events: Vec<ConfigUpdated> = Vec::new();
        assert(events.deep_view() =~= Seq::<ConfigChange>::empty());
        self.config.treasury = record_key(&mut events, "treasury", self.config.treasury, new_treasury);
        self.config.charity = record_key(&mut events, "charity", self.config.charity, new_charity);
        self.config.treasury_split_bps = record_rate(
            &mut events,
            "treasury_split_bps",
            self.config.treasury_split_bps,
            new_treasury_split_bps,
        );
        self.config.partial_fee_bps = record_rate(
            &mut events,
            "partial_fee_bps",
            self.config.partial_fee_bps,
            new_partial_fee_bps,
        );
        self.config.edit_penalty_bps = record_rate(
            &mut events,
            "edit_penalty_bps",
            self.config.edit_penalty_bps,
            new_edit_penalty_bps,
        );
        self.config.grace_period_seconds = record_seconds(
            &mut events,
            "grace_period_seconds",
            self.config.grace_period_seconds,
            new_grace_period_seconds,
        );
        self.config.paused = record_flag(&mut events, "paused", self.config.paused, paused);
        assert(events.deep_view() =~= old(self).changes(
            new_treasury,
            new_charity,
            new_treasury_split_bps,
            new_partial_fee_bps,
            new_edit_penalty_bps,
            new_grace_period_seconds,
            paused,
        ));
        Ok(events)
    }
}

/// Records the change of an address field, if a new value is supplied, and
/// returns the value that the field then has.
fn record_key(
    events: &mut Vec<ConfigUpdated>,
    field: &str,
    old_value: Pubkey,
    new_value: Option<Pubkey>,
) -> (value: Pubkey)
    ensures
        final(events).deep_view() == old(events).deep_view() + key_change(field@, old_value, new_value),
        value == supplied_or(new_value, old_value),
{
    match new_value {
        Some(value) => {
            record(events, ConfigUpdated::new(field, old_value.to_base58(), value.to_base58()));
            value
        },
        None => {
            assert(events.deep_view() =~= old(events).deep_view() + Seq::<ConfigChange>::empty());
            old_value
        },
    }
}

/// Records the change of a rate field, if a new value is supplied, and returns
/// the value that the field then has.
fn record_rate(
    events: &mut Vec<ConfigUpdated>,
    field: &str,
    old_value: u16,
    new_value: Option<u16>,
) -> (value: u16)
    ensures
        final(events).deep_view() == old(events).deep_view() + rate_change(
            field@,
            old_value,
            new_value,
        ),
        value == supplied_or(new_value, old_value),
{
    match new_value {
        Some(value) => {
            record(
                events,
                ConfigUpdated::new(
                    field,
                    unsigned_to_string(old_value as u64),
                    unsigned_to_string(value as u64),
                ),
            );
            value
        },
        None => {
            assert(events.deep_view() =~= old(events).deep_view() + Seq::<ConfigChange>::empty());
            old_value
        },
    }
}

/// Records the change of a field of seconds, if a new value is supplied, and
/// returns the value that the field then has.
fn record_seconds(
    events: &mut Vec<ConfigUpdated>,
    field: &str,
    old_value: i64,
    new_value: Option<i64>,
) -> (value: i64)
    ensures
        final(events).deep_view() == old(events).deep_view() + seconds_change(
            field@,
            old_value,
            new_value,
        ),
        value == supplied_or(new_value, old_value),
{
    match new_value {
        Some(value) => {
            record(
                events,
                ConfigUpdated::new(field, signed_to_string(old_value), signed_to_string(value)),
            );
            value
        },
        None => {
            assert(events.deep_view() =~= old(events).deep_view() + Seq::<ConfigChange>::empty());
            old_value
        },
    }
}

/// Records the change of a flag, if a new value is supplied, and returns the
/// value that the flag then has.
fn record_flag(
    events: &mut Vec<ConfigUpdated>,
    field: &str,
    old_value: bool,
    new_value: Option<bool>,
) -> (value: bool)
    ensures
        final(events).deep_view() == old(events).deep_view() + flag_change(
            field@,
            old_value,
            new_value,
        ),
        value == supplied_or(new_value, old_value),
{
    match new_value {
        Some(value) => {
            record(events, ConfigUpdated::new(field, bool_to_string(old_value), bool_to_string(value)));
            value
        },
        None => {
            assert(events.deep_view() =~= old(events).deep_view() + Seq::<ConfigChange>::empty());
            old_value
        },
    }
}

/// Appends `event` to `events`.
fn record(events: &mut Vec<ConfigUpdated>, event: ConfigUpdated)
    ensures
        final(events).deep_view() == old(events).deep_view() + seq![event@],
{
    events.push(event);
    assert(events.deep_view() =~= old(events).deep_view() + seq![event@]);
}

} // verus!
