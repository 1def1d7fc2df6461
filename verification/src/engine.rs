use vstd::prelude::*;

use crate::accounts::{Account, CustodyAccount, Pubkey, transfer};
use crate::errors::ErrorCode;
use crate::numbers::{
    find_winning_tier, first_match, generate_player_numbers, generate_winning_numbers, sequence_of,
};

verus! {

/// Fixed total cost of one paid play, in native token base units.
pub const PLAY_COST: u64 = 2_000_000_000;

/// Share of the play cost that goes to the operator: floor(cost / 10).
pub const ADMIN_SHARE: u64 = PLAY_COST / 10;

/// Remainder of the play cost, which goes to the custody account.
pub const POOL_SHARE: u64 = PLAY_COST - ADMIN_SHARE;

/// The prize table set at initialization: tier 0 is the highest prize and
/// tier 5 the lowest, in native token base units.
pub open spec fn standard_prizes() -> Seq<u64> {
    seq![
        1_000_000_000u64,
        500_000_000u64,
        300_000_000u64,
        200_000_000u64,
        100_000_000u64,
        50_000_000u64,
    ]
}

/// The single source of truth of one lottery deployment.
#[derive(Clone, Copy, Debug)]
pub struct LotteryState {
    /// Identity of the operator authorized to fund the lottery.
    pub admin: Pubkey,
    /// Identity of the fund-holding custody account.
    pub prize_pool: Pubkey,
    /// Derivation tag of the state record itself.
    pub bump: u8,
    /// Derivation tag recorded for custody payouts; it must match the tag
    /// the custody account was created with or every payout fails.
    pub prize_pool_bump: u8,
    /// Round counter; starts at 1 and is advanced by no operation here.
    pub current_round: u64,
    /// The winning sequence, drawn once at setup.
    pub winning_numbers: [u8; 6],
    /// Prize of each tier, highest first.
    pub prizes: [u64; 6],
}

impl LotteryState {
    /// Every winning number lies in its position's range [1, 50 - i].
    pub open spec fn wf(self) -> bool {
        forall|i: int| 0 <= i < 6 ==> 1 <= #[trigger] self.winning_numbers@[i] <= 50 - i
    }
}

/// Outcome of a successful play: the tier won, if any.
#[derive(Clone, Copy, Debug, PartialEq, Eq, Structural)]
pub enum PlayResult {
    /// The player sequence first matched the winning sequence at this tier.
    Won(usize),
    /// No position matched; the play still succeeds.
    NoWin,
}

/// Accounts of an initialization call.
pub struct Initialize {
    pub admin: Account,
    pub prize_pool: CustodyAccount,
}

/// Accounts of a deposit call.
pub struct DepositPrizePool {
    pub admin: Account,
    pub prize_pool: CustodyAccount,
    pub lottery_state: LotteryState,
}

/// Accounts of a paid play call.
pub struct Play {
    pub player: Account,
    pub admin: Account,
    pub prize_pool: CustodyAccount,
    pub lottery_state: LotteryState,
}

/// Accounts of a free play call.
pub struct FreePlay {
    pub player: Account,
    pub prize_pool: CustodyAccount,
    pub lottery_state: LotteryState,
}

/// Seeds the lottery: records the operator and custody identities and the
/// derivation tags, draws the winning sequence from the time source, and
/// sets the fixed prize table.
pub fn initialize(
    ctx: &Initialize,
    prize_pool_bump: u8,
    lottery_state_bump: u8,
    unix_time: u64,
) -> (state: LotteryState)
    ensures
        state.admin == ctx.admin.key,
        state.prize_pool == ctx.prize_pool.account.key,
        state.bump == lottery_state_bump,
        state.prize_pool_bump == prize_pool_bump,
        state.current_round == 1,
        state.winning_numbers@ == sequence_of(unix_time),
        state.prizes@ == standard_prizes(),
        state.wf(),
{
    let winning_numbers = generate_winning_numbers(unix_time);
    let prizes: [u64; 6] = [
        1_000_000_000,
        500_000_000,
        300_000_000,
        200_000_000,
        100_000_000,
        50_000_000,
    ];
    let state = LotteryState {
        admin: ctx.admin.key,
        prize_pool: ctx.prize_pool.account.key,
        bump: lottery_state_bump,
        prize_pool_bump,
        current_round: 1,
        winning_numbers,
        prizes,
    };
    proof {
        assert(state.prizes@ =~= standard_prizes());
    }
    state
}

/// The operator tops up the custody account.
pub fn deposit_prize_pool(ctx: &mut DepositPrizePool, amount: u64) -> (r: Result<(), ErrorCode>)
    ensures
        final(ctx).lottery_state == old(ctx).lottery_state,
        final(ctx).admin.key == old(ctx).admin.key,
        final(ctx).prize_pool.account.key == old(ctx).prize_pool.account.key,
        final(ctx).prize_pool.derivation_tag == old(ctx).prize_pool.derivation_tag,
        r is Err ==> final(ctx).admin.balance == old(ctx).admin.balance
            && final(ctx).prize_pool.account.balance == old(ctx).prize_pool.account.balance,
        r == Err::<(), ErrorCode>(ErrorCode::AuthorizationMismatch)
            <==> old(ctx).admin.key != old(ctx).lottery_state.admin,
        r is Ok <==> old(ctx).admin.key == old(ctx).lottery_state.admin
            && old(ctx).admin.balance >= amount
            && old(ctx).prize_pool.account.balance + amount <= u64::MAX,
        r is Ok ==> final(ctx).admin.balance == old(ctx).admin.balance - amount
            && final(ctx).prize_pool.account.balance == old(ctx).prize_pool.account.balance
            + amount,
        r == Err::<(), ErrorCode>(ErrorCode::InsufficientFunds)
            <==> old(ctx).admin.key == old(ctx).lottery_state.admin
                && old(ctx).admin.balance < amount,
        r == Err::<(), ErrorCode>(ErrorCode::ArithmeticOverflow)
            <==> old(ctx).admin.key == old(ctx).lottery_state.admin
                && old(ctx).admin.balance >= amount
                && old(ctx).prize_pool.account.balance + amount > u64::MAX,
{
    if ctx.admin.key != ctx.lottery_state.admin {
        return Err(ErrorCode::AuthorizationMismatch);
    }
    ctx.prize_pool.fund(&mut ctx.admin, amount)
}

/// The split of one paid play can be charged: the player covers the full
/// cost and neither receiving balance overflows.
pub open spec fn charge_feasible(pre: Play) -> bool {
    pre.player.balance >= PLAY_COST && pre.admin.balance + ADMIN_SHARE <= u64::MAX
        && pre.prize_pool.account.balance + POOL_SHARE <= u64::MAX
}

/// The error a play reports when its split cannot be charged.
pub open spec fn charge_error(pre: Play) -> ErrorCode {
    if pre.player.balance < PLAY_COST {
        ErrorCode::InsufficientFunds
    } else {
        ErrorCode::ArithmeticOverflow
    }
}

/// Tier `i`'s prize can be paid out of custody: the recorded derivation tag
/// reproduces the custody tag, the custody balance held before the call
/// covers the prize — a play's own share may not fund its own payout — and
/// crediting the player does not overflow.
pub open spec fn payout_feasible(pre: Play, i: int) -> bool {
    pre.lottery_state.prize_pool_bump == pre.prize_pool.derivation_tag
        && pre.lottery_state.prizes@[i] <= pre.prize_pool.account.balance
        && pre.player.balance - PLAY_COST + pre.lottery_state.prizes@[i] <= u64::MAX
}

/// The error a play reports when tier `i`'s payout cannot be made.
pub open spec fn payout_error(pre: Play, i: int) -> ErrorCode {
    if pre.lottery_state.prize_pool_bump != pre.prize_pool.derivation_tag {
        ErrorCode::AuthorizationMismatch
    } else if pre.lottery_state.prizes@[i] > pre.prize_pool.account.balance {
        ErrorCode::InsufficientFunds
    } else {
        ErrorCode::ArithmeticOverflow
    }
}

/// One paid play: charges the fixed cost split between operator and custody,
/// draws a fresh player sequence from the time source, and pays the prize of
/// the lowest matching tier, if any, out of custody. A prize is paid only if
/// custody already held it when the call began, and either every transfer of
/// the call commits, or none does and the error says why.
pub fn play(ctx: &mut Play, unix_time: u64) -> (r: Result<PlayResult, ErrorCode>)
    ensures
        final(ctx).lottery_state == old(ctx).lottery_state,
        final(ctx).player.key == old(ctx).player.key,
        final(ctx).admin.key == old(ctx).admin.key,
        final(ctx).prize_pool.account.key == old(ctx).prize_pool.account.key,
        final(ctx).prize_pool.derivation_tag == old(ctx).prize_pool.derivation_tag,
        r is Err ==> *final(ctx) == *old(ctx),
        match first_match(sequence_of(unix_time), old(ctx).lottery_state.winning_numbers@) {
            Some(i) => (if !charge_feasible(*old(ctx)) {
                r == Err::<PlayResult, ErrorCode>(charge_error(*old(ctx)))
            } else if !payout_feasible(*old(ctx), i) {
                r == Err::<PlayResult, ErrorCode>(payout_error(*old(ctx), i))
            } else {
                &&& r == Ok::<PlayResult, ErrorCode>(PlayResult::Won(i as usize))
                &&& final(ctx).player.balance == old(ctx).player.balance - PLAY_COST + old(
                    ctx,
                ).lottery_state.prizes@[i]
                &&& final(ctx).admin.balance == old(ctx).admin.balance + ADMIN_SHARE
                &&& final(ctx).prize_pool.account.balance == old(ctx).prize_pool.account.balance
                    + POOL_SHARE - old(ctx).lottery_state.prizes@[i]
            }),
            None => (if charge_feasible(*old(ctx)) {
                &&& r == Ok::<PlayResult, ErrorCode>(PlayResult::NoWin)
                &&& final(ctx).player.balance == old(ctx).player.balance - PLAY_COST
                &&& final(ctx).admin.balance == old(ctx).admin.balance + ADMIN_SHARE
                &&& final(ctx).prize_pool.account.balance == old(ctx).prize_pool.account.balance
                    + POOL_SHARE
            } else {
                r == Err::<PlayResult, ErrorCode>(charge_error(*old(ctx)))
            }),
        },
{
    if ctx.player.balance < PLAY_COST {
        return Err(ErrorCode::InsufficientFunds);
    }
    if ADMIN_SHARE > u64::MAX - ctx.admin.balance {
        return Err(ErrorCode::ArithmeticOverflow);
    }
    if POOL_SHARE > u64::MAX - ctx.prize_pool.account.balance {
        return Err(ErrorCode::ArithmeticOverflow);
    }
    let player_numbers = generate_player_numbers(unix_time);
    match find_winning_tier(&player_numbers, &ctx.lottery_state.winning_numbers) {
        None => {
            match transfer(&mut ctx.player, &mut ctx.admin, ADMIN_SHARE) {
                Ok(_) => {},
                Err(e) => {
                    return Err(e);
                },
            }
            match ctx.prize_pool.fund(&mut ctx.player, POOL_SHARE) {
                Ok(_) => {},
                Err(e) => {
                    return Err(e);
                },
            }
            Ok(PlayResult::NoWin)
        },
        Some(i) => {
            let prize = ctx.lottery_state.prizes[i];
            if ctx.lottery_state.prize_pool_bump != ctx.prize_pool.derivation_tag {
                return Err(ErrorCode::AuthorizationMismatch);
            }
            if prize > ctx.prize_pool.account.balance {
                return Err(ErrorCode::InsufficientFunds);
            }
            if prize > u64::MAX - (ctx.player.balance - PLAY_COST) {
                return Err(ErrorCode::ArithmeticOverflow);
            }
            match transfer(&mut ctx.player, &mut ctx.admin, ADMIN_SHARE) {
                Ok(_) => {},
                Err(e) => {
                    return Err(e);
                },
            }
            match ctx.prize_pool.fund(&mut ctx.player, POOL_SHARE) {
                Ok(_) => {},
                Err(e) => {
                    return Err(e);
                },
            }
            match ctx.prize_pool.payout(&mut ctx.player, prize, ctx.lottery_state.prize_pool_bump) {
                Ok(_) => {},
                Err(e) => {
                    return Err(e);
                },
            }
            Ok(PlayResult::Won(i))
        },
    }
}

/// Tier `i`'s prize can be paid out of custody on a free play: the recorded
/// derivation tag reproduces the custody tag, custody covers the prize, and
/// crediting the player does not overflow.
pub open spec fn free_payout_feasible(pre: FreePlay, i: int) -> bool {
    pre.lottery_state.prize_pool_bump == pre.prize_pool.derivation_tag
        && pre.lottery_state.prizes@[i] <= pre.prize_pool.account.balance
        && pre.player.balance + pre.lottery_state.prizes@[i] <= u64::MAX
}

/// The error a free play reports when tier `i`'s payout cannot be made.
pub open spec fn free_payout_error(pre: FreePlay, i: int) -> ErrorCode {
    if pre.lottery_state.prize_pool_bump != pre.prize_pool.derivation_tag {
        ErrorCode::AuthorizationMismatch
    } else if pre.lottery_state.prizes@[i] > pre.prize_pool.account.balance {
        ErrorCode::InsufficientFunds
    } else {
        ErrorCode::ArithmeticOverflow
    }
}

/// One free play, earned by referrals: no charge is made; with at least 3
/// referrals it draws a player sequence and pays the lowest matching tier,
/// if any, exactly as a paid play does.
pub fn free_play(ctx: &mut FreePlay, referral_count: u8, unix_time: u64) -> (r: Result<
    PlayResult,
    ErrorCode,
>)
    ensures
        final(ctx).lottery_state == old(ctx).lottery_state,
        final(ctx).player.key == old(ctx).player.key,
        final(ctx).prize_pool.account.key == old(ctx).prize_pool.account.key,
        final(ctx).prize_pool.derivation_tag == old(ctx).prize_pool.derivation_tag,
        r is Err ==> *final(ctx) == *old(ctx),
        r == Err::<PlayResult, ErrorCode>(ErrorCode::InsufficientReferrals) <==> referral_count
            < 3,
        referral_count >= 3 ==> match first_match(
            sequence_of(unix_time),
            old(ctx).lottery_state.winning_numbers@,
        ) {
            Some(i) => (if free_payout_feasible(*old(ctx), i) {
                &&& r == Ok::<PlayResult, ErrorCode>(PlayResult::Won(i as usize))
                &&& final(ctx).player.balance == old(ctx).player.balance + old(
                    ctx,
                ).lottery_state.prizes@[i]
                &&& final(ctx).prize_pool.account.balance == old(ctx).prize_pool.account.balance
                    - old(ctx).lottery_state.prizes@[i]
            } else {
                r == Err::<PlayResult, ErrorCode>(free_payout_error(*old(ctx), i))
            }),
            None => r == Ok::<PlayResult, ErrorCode>(PlayResult::NoWin) && *final(ctx) == *old(
                ctx,
            ),
        },
{
    if referral_count < 3 {
        return Err(ErrorCode::InsufficientReferrals);
    }
    let player_numbers = generate_player_numbers(unix_time);
    match find_winning_tier(&player_numbers, &ctx.lottery_state.winning_numbers) {
        None => Ok(PlayResult::NoWin),
        Some(i) => {
            let prize = ctx.lottery_state.prizes[i];
            match ctx.prize_pool.payout(&mut ctx.player, prize, ctx.lottery_state.prize_pool_bump) {
                Ok(_) => Ok(PlayResult::Won(i)),
                Err(e) => Err(e),
            }
        },
    }
}

/// Law: the operator share and the custody share of one play sum to the
/// fixed cost exactly — floor(C / 10) + (C - floor(C / 10)) == C — and the
/// concrete split of the fixed cost is 200_000_000 and 1_800_000_000.
pub proof fn lemma_split_covers_cost()
    ensures
        ADMIN_SHARE + POOL_SHARE == PLAY_COST,
        PLAY_COST == 2_000_000_000u64,
        ADMIN_SHARE == 200_000_000u64,
        POOL_SHARE == 1_800_000_000u64,
{
}

/// Law: a winning play never over-draws the custody account. The prize paid
/// never exceeds the custody balance held before the call, and custody ends
/// with the play's own share on top of that non-negative remainder.
pub proof fn lemma_play_never_overdraws_custody(pre: Play, post: Play, i: int)
    requires
        0 <= i < 6,
        charge_feasible(pre),
        payout_feasible(pre, i),
        post.prize_pool.account.balance == pre.prize_pool.account.balance + POOL_SHARE
            - pre.lottery_state.prizes@[i],
    ensures
        pre.lottery_state.prizes@[i] <= pre.prize_pool.account.balance,
        post.prize_pool.account.balance >= POOL_SHARE,
{
}

} // verus!
