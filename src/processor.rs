//! The instruction handlers. Each takes the records it reads, already
//! decoded, with what it must know of the accounts that hold them, and
//! either updates the records or refuses with no change at all. Token
//! transfers are left to the caller, which performs the one a handler asks
//! for before it stores the records back.

use crate::error::QFError;
use crate::precise::{ONE, precise_sqrt, sqrt};
use crate::bytes::le_nat;
use crate::state::{
    AccountRef, Address, Project, Round, RoundStatus, Voter, find_program_address, is_zero_address,
    program_address, same, seed_bytes, token_account_valid, unpack_token_account,
};
use crate::wide::{U256, div_opt, fit, sub_opt, u256_limit};
use vstd::prelude::*;

verus! {

/// The fixed-point root that a voter's total contribution `c` earns.
pub open spec fn root_of(c: nat) -> nat {
    if c == 0 {
        0
    } else {
        match precise_sqrt((c * ONE) as nat) {
            Some(r) => r,
            None => 0,
        }
    }
}

/// True when the root of a total contribution `c` can be taken.
pub open spec fn root_exists(c: nat) -> bool {
    c == 0 || precise_sqrt((c * ONE) as nat) is Some
}

/// A project's root sum after a voter whose stored root was `old_root`
/// reaches the total contribution `total`.
pub open spec fn voted_area_sqrt(area_sqrt: nat, old_root: nat, total: nat) -> int {
    area_sqrt - old_root + root_of(total)
}

/// The round's area after one project's area changes from `old_area` to
/// `new_area`.
pub open spec fn replaced_area(round_area: nat, old_area: nat, new_area: nat) -> int {
    round_area - old_area + new_area
}

/// True when `voter` is the record derived for `contributor` on `project`.
pub open spec fn voter_address_matches(
    program_id: Address,
    project: Address,
    contributor: Address,
    voter: Address,
) -> bool {
    match program_address(seq![project.bytes@, contributor.bytes@], program_id.bytes@) {
        Some((k, _)) => k == voter.bytes@,
        None => false,
    }
}

/// The first check that a vote fails, if any.
pub open spec fn vote_rejection(
    program_id: Address,
    round_account: AccountRef,
    round: Round,
    project_account: AccountRef,
    project: Project,
    voter_account: AccountRef,
    voter: Voter,
    from: Address,
    to: Address,
    token_program: Address,
    token_program_id: Address,
) -> Option<QFError> {
    if !same(round_account.owner, program_id) {
        Some(QFError::IncorrectProgramId)
    } else if round.status != RoundStatus::Ongoing {
        Some(QFError::RoundStatusError)
    } else if !same(to, round.vault) {
        Some(QFError::VaultMismatch)
    } else if !same(project_account.owner, program_id) {
        Some(QFError::IncorrectProgramId)
    } else if !same(project.round, round_account.key) {
        Some(QFError::RoundMismatch)
    } else if !same(voter_account.owner, program_id) {
        Some(QFError::IncorrectProgramId)
    } else if !voter_address_matches(program_id, project_account.key, from, voter_account.key) {
        Some(QFError::VoterMismatch)
    } else if !voter.is_initialized {
        Some(QFError::UninitializedAccount)
    } else if !same(token_program, token_program_id) {
        Some(QFError::UnexpectedTokenProgramID)
    } else {
        None
    }
}

/// The fixed-point square of a project's root sum: squared, then descaled.
pub open spec fn squared(s: nat) -> nat {
    (s * s) / (ONE as nat)
}

/// True when every checked operation of a vote of `amount` stays in range.
pub open spec fn vote_succeeds(round: Round, project: Project, voter: Voter, amount: u64) -> bool {
    let total = (voter.votes + amount) as nat;
    let s = voted_area_sqrt(project.area_sqrt@, voter.votes_sqrt@, total);
    &&& total <= u64::MAX
    &&& project.votes + amount <= u64::MAX
    &&& round.area@ >= project.area@
    &&& root_exists(total)
    &&& project.area_sqrt@ >= voter.votes_sqrt@
    &&& s < u256_limit()
    &&& (s * s) < u256_limit()
    &&& replaced_area(round.area@, project.area@, squared(s as nat)) < u256_limit()
}

/// The records after a vote of `amount` on the project at `project_key`.
pub open spec fn vote_applied(
    round: Round,
    project: Project,
    voter: Voter,
    round1: Round,
    project1: Project,
    voter1: Voter,
    project_key: Address,
    amount: u64,
) -> bool {
    let total = (voter.votes + amount) as nat;
    let v = project1.area@ / (ONE as nat);
    &&& voter1.is_initialized == voter.is_initialized
    &&& voter1.votes == total
    &&& voter1.votes_sqrt@ == root_of(total)
    &&& project1.round == project.round
    &&& project1.owner == project.owner
    &&& project1.withdraw == project.withdraw
    &&& project1.votes == project.votes + amount
    &&& project1.area_sqrt@ == voted_area_sqrt(project.area_sqrt@, voter.votes_sqrt@, total)
    &&& project1.area@ == squared(project1.area_sqrt@)
    &&& round1.area@ == replaced_area(round.area@, project.area@, project1.area@)
    &&& round1.total_area@ == round1.area@ / (ONE as nat)
    &&& round1.top_area@ == (if v > round.top_area@ {
        v
    } else {
        round.top_area@
    })
    &&& if round.min_area@ == 0 || v < round.min_area@ {
        round1.min_area@ == v && round1.min_area_p == project_key
    } else if same(round.min_area_p, project_key) {
        round1.min_area@ == v && round1.min_area_p == round.min_area_p
    } else {
        round1.min_area == round.min_area && round1.min_area_p == round.min_area_p
    }
    &&& round1.status == round.status
    &&& round1.ratio == round.ratio
    &&& round1.fund == round.fund
    &&& round1.fee == round.fee
    &&& round1.project_number == round.project_number
    &&& round1.vault == round.vault
    &&& round1.owner == round.owner
}

/// The area credited to a project once the spread between the largest and
/// smallest areas is capped: `votes` is the project's descaled area,
/// `total` the round's, `n` the number of projects, `t` and `m` the largest
/// and smallest areas seen. The shrink factor `s` is a fixed-point fraction
/// scaled by `ONE`; below one it pulls the area toward the average `a` by
/// the fraction `s` of its excess, or `1 - s` of its deficit. `None` where a
/// checked step fails.
pub open spec fn capped_votes(votes: nat, total: nat, n: nat, t: nat, m: nat, ratio: nat) -> Option<nat> {
    match div_opt(total, n) {
        None => None,
        Some(a) => match (sub_opt(t, a), sub_opt(a, m)) {
            (Some(up), Some(down)) => match fit(down * ratio) {
                None => None,
                Some(dr) => match fit(up + dr) {
                    None => None,
                    Some(d) => if d == 0 {
                        Some(votes)
                    } else {
                        match sub_opt(ratio, 1) {
                            None => None,
                            Some(r1) => match fit(r1 * a) {
                                None => None,
                                Some(ra) => match fit(ra * (ONE as nat)) {
                                    None => None,
                                    Some(scaled) => {
                                        let s = scaled / d;
                                        if s >= ONE {
                                            Some(votes)
                                        } else if votes > a {
                                            match fit(s * (votes - a) as nat) {
                                                None => None,
                                                Some(pulled) => fit(a + pulled / (ONE as nat)),
                                            }
                                        } else {
                                            match fit(((a - votes) as nat) * ((ONE - s) as nat)) {
                                                None => None,
                                                Some(pushed) => fit(votes + pushed / (ONE as nat)),
                                            }
                                        }
                                    },
                                },
                            },
                        }
                    },
                },
            },
            _ => None,
        },
    }
}

/// What a project is owed before the fee: its own votes plus its share of
/// the fund, in proportion to its capped area; its votes alone where no
/// area was credited in the round.
pub open spec fn withdraw_gross(round: Round, project: Project) -> Option<nat> {
    let total = round.total_area@;
    if total > 0 {
        match capped_votes(
            project.area@ / (ONE as nat),
            total,
            round.project_number as nat,
            round.top_area@,
            round.min_area@,
            round.ratio as nat,
        ) {
            None => None,
            Some(c) => match fit((round.fund * c) as nat) {
                None => None,
                Some(share) => fit((project.votes + share / total) as nat),
            },
        }
    } else {
        Some(project.votes as nat)
    }
}

/// Five percent of `gross`, rounded down.
pub open spec fn fee_of(gross: nat) -> Option<nat> {
    match fit(gross * 5) {
        Some(x) => Some(x / 100),
        None => None,
    }
}

/// The amount paid to a project and the fee kept, or `None` where a checked
/// step fails or either does not fit in 64 bits.
pub open spec fn withdraw_payout(round: Round, project: Project) -> Option<(u64, u64)> {
    match withdraw_gross(round, project) {
        None => None,
        Some(g) => match fee_of(g) {
            None => None,
            Some(f) => if f <= g && g - f <= u64::MAX && f <= u64::MAX {
                Some(((g - f) as u64, f as u64))
            } else {
                None
            },
        },
    }
}

/// The first check that a withdrawal fails, if any.
pub open spec fn withdraw_rejection(
    program_id: Address,
    round_account: AccountRef,
    round: Round,
    project_account: AccountRef,
    project: Project,
    project_owner: AccountRef,
    token_program: Address,
    token_program_id: Address,
) -> Option<QFError> {
    if !same(round_account.owner, program_id) {
        Some(QFError::IncorrectProgramId)
    } else if round.status != RoundStatus::Finished {
        Some(QFError::RoundStatusError)
    } else if !same(project_account.owner, program_id) {
        Some(QFError::IncorrectProgramId)
    } else if !same(project.round, round_account.key) {
        Some(QFError::RoundMismatch)
    } else if project.withdraw {
        Some(QFError::ProjectAlreadyWithdraw)
    } else if !project_owner.is_signer {
        Some(QFError::MissingRequiredSignature)
    } else if !same(project.owner, project_owner.key) {
        Some(QFError::OwnerMismatch)
    } else if !same(token_program, token_program_id) {
        Some(QFError::UnexpectedTokenProgramID)
    } else {
        None
    }
}

/// The first check that starting a round fails, if any.
pub open spec fn start_round_rejection(
    program_id: Address,
    round_account: AccountRef,
    round: Round,
    data_len: usize,
    rent_exempt: bool,
    round_owner: Address,
    vault_data: Seq<u8>,
) -> Option<QFError> {
    if !same(round_account.owner, program_id) {
        Some(QFError::IncorrectProgramId)
    } else if round.status != RoundStatus::Uninitialized {
        Some(QFError::AccountAlreadyInitialized)
    } else if data_len != 250 {
        Some(QFError::InvalidAccountData)
    } else if !rent_exempt {
        Some(QFError::AccountNotRentExempt)
    } else if !token_account_valid(vault_data) {
        Some(QFError::InvalidAccountData)
    } else {
        match program_address(seq![round_owner.bytes@], program_id.bytes@) {
            Some((k, _)) => if k == vault_data.subrange(32, 64) {
                None
            } else {
                Some(QFError::OwnerMismatch)
            },
            None => Some(QFError::OwnerMismatch),
        }
    }
}

/// The first check that a donation fails, if any.
pub open spec fn donate_rejection(
    program_id: Address,
    round_account: AccountRef,
    round: Round,
    to: Address,
    token_program: Address,
    token_program_id: Address,
) -> Option<QFError> {
    if !same(round_account.owner, program_id) {
        Some(QFError::IncorrectProgramId)
    } else if round.status != RoundStatus::Ongoing {
        Some(QFError::RoundStatusError)
    } else if !same(to, round.vault) {
        Some(QFError::VaultMismatch)
    } else if !same(token_program, token_program_id) {
        Some(QFError::UnexpectedTokenProgramID)
    } else {
        None
    }
}

/// The first check that registering a project fails, if any.
pub open spec fn register_rejection(
    program_id: Address,
    round_account: AccountRef,
    round: Round,
    project_account: AccountRef,
    project: Project,
    data_len: usize,
    rent_exempt: bool,
) -> Option<QFError> {
    if !same(round_account.owner, program_id) {
        Some(QFError::IncorrectProgramId)
    } else if round.status != RoundStatus::Ongoing {
        Some(QFError::RoundStatusError)
    } else if !same(project_account.owner, program_id) {
        Some(QFError::IncorrectProgramId)
    } else if !is_zero_address(project.round) {
        Some(QFError::AccountAlreadyInitialized)
    } else if data_len != 137 {
        Some(QFError::InvalidAccountData)
    } else if !rent_exempt {
        Some(QFError::AccountNotRentExempt)
    } else {
        None
    }
}

/// The first check that creating a voter record fails, if any.
pub open spec fn init_voter_rejection(
    program_id: Address,
    project_account: AccountRef,
    project: Project,
    voter: Voter,
) -> Option<QFError> {
    if !same(project_account.owner, program_id) {
        Some(QFError::IncorrectProgramId)
    } else if is_zero_address(project.round) {
        Some(QFError::UninitializedAccount)
    } else if voter.is_initialized {
        Some(QFError::AccountAlreadyInitialized)
    } else {
        None
    }
}

/// The first check that ending a round fails, if any.
pub open spec fn end_round_rejection(
    program_id: Address,
    round_account: AccountRef,
    round: Round,
    owner: AccountRef,
) -> Option<QFError> {
    if !same(round_account.owner, program_id) {
        Some(QFError::IncorrectProgramId)
    } else if round.status != RoundStatus::Ongoing {
        Some(QFError::RoundStatusError)
    } else if !same(owner.key, round.owner) {
        Some(QFError::OwnerMismatch)
    } else if !owner.is_signer {
        Some(QFError::MissingRequiredSignature)
    } else {
        None
    }
}

/// The first check that taking out the fee fails, if any.
pub open spec fn withdraw_fee_rejection(
    program_id: Address,
    round_account: AccountRef,
    round: Round,
    owner: AccountRef,
    vault: Address,
    token_program: Address,
    token_program_id: Address,
) -> Option<QFError> {
    if !same(round_account.owner, program_id) {
        Some(QFError::IncorrectProgramId)
    } else if round.status != RoundStatus::Finished {
        Some(QFError::RoundStatusError)
    } else if !same(owner.key, round.owner) {
        Some(QFError::OwnerMismatch)
    } else if !owner.is_signer {
        Some(QFError::MissingRequiredSignature)
    } else if !same(vault, round.vault) {
        Some(QFError::VaultMismatch)
    } else if !same(token_program, token_program_id) {
        Some(QFError::UnexpectedTokenProgramID)
    } else {
        None
    }
}

/// The first check that banning a project fails, if any.
pub open spec fn ban_rejection(
    program_id: Address,
    round_account: AccountRef,
    round: Round,
    owner: AccountRef,
    project_account: AccountRef,
    project: Project,
) -> Option<QFError> {
    if !same(round_account.owner, program_id) {
        Some(QFError::IncorrectProgramId)
    } else if round.status != RoundStatus::Ongoing {
        Some(QFError::RoundStatusError)
    } else if !same(owner.key, round.owner) {
        Some(QFError::OwnerMismatch)
    } else if !owner.is_signer {
        Some(QFError::MissingRequiredSignature)
    } else if !same(project_account.owner, program_id) {
        Some(QFError::IncorrectProgramId)
    } else if is_zero_address(project.round) {
        Some(QFError::UninitializedAccount)
    } else if !same(project.round, round_account.key) {
        Some(QFError::RoundMismatch)
    } else {
        None
    }
}

/// The factor that brings the root of a descaled area back to the scale of
/// a project's root sum: the square root of `ONE`.
pub const ROOT_SCALE: u64 = 1_000_000;

/// A project's root sum re-derived from its area after a ban.
pub open spec fn banned_root(area: nat) -> nat {
    let descaled = area / (ONE as nat);
    if descaled == 0 {
        0
    } else {
        match precise_sqrt(descaled) {
            Some(r) => r * (ROOT_SCALE as nat),
            None => 0,
        }
    }
}

/// True when every checked operation of a ban of `ban` stays in range.
pub open spec fn ban_succeeds(round: Round, project: Project, ban: nat) -> bool {
    let descaled = ((project.area@ - ban) as nat) / (ONE as nat);
    &&& project.area@ >= ban
    &&& round.area@ >= ban
    &&& (descaled == 0 || precise_sqrt(descaled as nat) is Some)
    &&& banned_root((project.area@ - ban) as nat) < u256_limit()
}

/// True when the account belongs to the program.
fn owned_by(account: &AccountRef, program_id: &Address) -> (r: bool)
    ensures
        r == same(account.owner, *program_id),
{
    account.owner == *program_id
}

/// Turns a failed checked operation into `ArithmeticOverflow`.
fn overflow<T>(r: Option<T>) -> (o: Result<T, QFError>)
    ensures
        match r {
            Some(x) => o == Ok::<T, QFError>(x),
            None => o == Err::<T, QFError>(QFError::ArithmeticOverflow),
        },
{
    match r {
        Some(x) => Ok(x),
        None => Err(QFError::ArithmeticOverflow),
    }
}

fn cap_votes(votes: U256, total: U256, n: u64, t: U256, m: U256, ratio: u8) -> (r: Result<U256, QFError>)
    ensures
        match capped_votes(votes@, total@, n as nat, t@, m@, ratio as nat) {
            Some(c) => r is Ok && r->Ok_0@ == c,
            None => r == Err::<U256, QFError>(QFError::ArithmeticOverflow),
        },
{
    let unit = U256::from_u64(1);
    let ratio = U256::from_u64(ratio as u64);
    let a = overflow(total.checked_div(U256::from_u64(n)))?;
    let up = overflow(t.checked_sub(a))?;
    let down = overflow(a.checked_sub(m))?;
    let dr = overflow(down.checked_mul(ratio))?;
    let d = overflow(up.checked_add(dr))?;
    if !U256::zero().lt(&d) {
        return Ok(votes);
    }
    let one = U256::from_u64(ONE);
    let r1 = overflow(ratio.checked_sub(unit))?;
    let ra = overflow(r1.checked_mul(a))?;
    let scaled = overflow(ra.checked_mul(one))?;
    let s = overflow(scaled.checked_div(d))?;
    if !s.lt(&one) {
        Ok(votes)
    } else if a.lt(&votes) {
        let excess = overflow(votes.checked_sub(a))?;
        let pulled = overflow(s.checked_mul(excess))?;
        let pulled = overflow(pulled.checked_div(one))?;
        overflow(a.checked_add(pulled))
    } else {
        let deficit = overflow(a.checked_sub(votes))?;
        let keep = overflow(one.checked_sub(s))?;
        let pushed = overflow(deficit.checked_mul(keep))?;
        let pushed = overflow(pushed.checked_div(one))?;
        overflow(votes.checked_add(pushed))
    }
}

/// Lamports that a new voter account still needs to reach the rent-exempt
/// minimum, which is never taken below one lamport.
pub fn voter_top_up(minimum_balance: u64, lamports: u64) -> (r: u64)
    ensures
        ({
            let minimum = if minimum_balance == 0 {
                1
            } else {
                minimum_balance
            };
            r == if lamports >= minimum {
                0
            } else {
                minimum - lamports
            }
        }),
{
    let minimum: u64 = if minimum_balance == 0 {
        1
    } else {
        minimum_balance
    };
    if lamports >= minimum {
        0
    } else {
        minimum - lamports
    }
}

/// Handlers of the nine instructions.
pub struct Processor {}

impl Processor {
    /// The amount a project is paid at withdrawal and the fee the round
    /// keeps, computed from the finished round's totals.
    pub fn withdraw_amount(round: &Round, project: &Project) -> (r: Result<(u64, u64), QFError>)
        ensures
            match withdraw_payout(*round, *project) {
                Some(p) => r == Ok::<(u64, u64), QFError>(p),
                None => r == Err::<(u64, u64), QFError>(QFError::ArithmeticOverflow),
            },
    {
        let one = U256::from_u64(ONE);
        let votes = overflow(project.area.checked_div(one))?;
        let gross = if U256::zero().lt(&round.total_area) {
            let c = cap_votes(
                votes,
                round.total_area,
                round.project_number,
                round.top_area,
                round.min_area,
                round.ratio,
            )?;
            let share = overflow(U256::from_u64(round.fund).checked_mul(c))?;
            let q = overflow(share.checked_div(round.total_area))?;
            overflow(U256::from_u64(project.votes).checked_add(q))?
        } else {
            U256::from_u64(project.votes)
        };
        let five = overflow(gross.checked_mul(U256::from_u64(5)))?;
        let fee = overflow(five.checked_div(U256::from_u64(100)))?;
        let net = overflow(gross.checked_sub(fee))?;
        let amount = overflow(net.to_u64())?;
        let fee = overflow(fee.to_u64())?;
        Ok((amount, fee))
    }

    /// Pays a project out of a finished round: returns the amount to
    /// transfer to its owner, adds the fee to the round and marks the
    /// project as paid.
    pub fn process_withdraw(
        program_id: &Address,
        round_account: &AccountRef,
        round: &mut Round,
        project_account: &AccountRef,
        project: &mut Project,
        project_owner: &AccountRef,
        token_program: &Address,
        token_program_id: &Address,
    ) -> (r: Result<u64, QFError>)
        ensures
            match withdraw_rejection(
                *program_id,
                *round_account,
                *old(round),
                *project_account,
                *old(project),
                *project_owner,
                *token_program,
                *token_program_id,
            ) {
                Some(e) => r == Err::<u64, QFError>(e),
                None => match withdraw_payout(*old(round), *old(project)) {
                    Some((amount, fee)) => if old(round).fee + fee <= u64::MAX {
                        &&& r == Ok::<u64, QFError>(amount)
                        &&& *final(round) == (Round { fee: (old(round).fee + fee) as u64, ..*old(round) })
                        &&& *final(project) == (Project { withdraw: true, ..*old(project) })
                    } else {
                        r == Err::<u64, QFError>(QFError::ArithmeticOverflow)
                    },
                    None => r == Err::<u64, QFError>(QFError::ArithmeticOverflow),
                },
            },
            r is Err ==> *final(round) == *old(round) && *final(project) == *old(project),
    {
        if !owned_by(round_account, program_id) {
            return Err(QFError::IncorrectProgramId);
        }
        if round.status != RoundStatus::Finished {
            return Err(QFError::RoundStatusError);
        }
        if !owned_by(project_account, program_id) {
            return Err(QFError::IncorrectProgramId);
        }
        if !(project.round == round_account.key) {
            return Err(QFError::RoundMismatch);
        }
        if project.withdraw {
            return Err(QFError::ProjectAlreadyWithdraw);
        }
        if !project_owner.is_signer {
            return Err(QFError::MissingRequiredSignature);
        }
        if !(project.owner == project_owner.key) {
            return Err(QFError::OwnerMismatch);
        }
        if !(*token_program == *token_program_id) {
            return Err(QFError::UnexpectedTokenProgramID);
        }
        let (amount, fee) = Self::withdraw_amount(round, project)?;
        let total_fee = overflow(round.fee.checked_add(fee))?;
        project.withdraw = true;
        round.fee = total_fee;
        Ok(amount)
    }
    /// Records a vote of `amount` tokens from `from` for a project: the
    /// voter's root is replaced by the root of its new total, the project's
    /// area is re-derived from its root sum, and the round's totals and
    /// extrema follow.
    pub fn process_vote(
        program_id: &Address,
        round_account: &AccountRef,
        round: &mut Round,
        project_account: &AccountRef,
        project: &mut Project,
        voter_account: &AccountRef,
        voter: &mut Voter,
        from: &Address,
        to: &Address,
        token_program: &Address,
        token_program_id: &Address,
        amount: u64,
    ) -> (r: Result<(), QFError>)
        ensures
            match vote_rejection(
                *program_id,
                *round_account,
                *old(round),
                *project_account,
                *old(project),
                *voter_account,
                *old(voter),
                *from,
                *to,
                *token_program,
                *token_program_id,
            ) {
                Some(e) => r == Err::<(), QFError>(e),
                None => if vote_succeeds(*old(round), *old(project), *old(voter), amount) {
                    r is Ok && vote_applied(
                        *old(round),
                        *old(project),
                        *old(voter),
                        *final(round),
                        *final(project),
                        *final(voter),
                        project_account.key,
                        amount,
                    )
                } else {
                    r == Err::<(), QFError>(QFError::ArithmeticOverflow)
                },
            },
            r is Err ==> *final(round) == *old(round) && *final(project) == *old(project)
                && *final(voter) == *old(voter),
    {
        if !owned_by(round_account, program_id) {
            return Err(QFError::IncorrectProgramId);
        }
        if round.status != RoundStatus::Ongoing {
            return Err(QFError::RoundStatusError);
        }
        if !(*to == round.vault) {
            return Err(QFError::VaultMismatch);
        }
        if !owned_by(project_account, program_id) {
            return Err(QFError::IncorrectProgramId);
        }
        if !(project.round == round_account.key) {
            return Err(QFError::RoundMismatch);
        }
        if !owned_by(voter_account, program_id) {
            return Err(QFError::IncorrectProgramId);
        }
        let seeds = vec![project_account.key, *from];
        assert(seed_bytes(seeds@) =~= seq![project_account.key.bytes@, from.bytes@]);
        match find_program_address(&seeds, program_id) {
            Some((k, _)) => {
                if !(k == voter_account.key) {
                    return Err(QFError::VoterMismatch);
                }
            },
            None => {
                return Err(QFError::VoterMismatch);
            },
        }
        if !voter.is_initialized {
            return Err(QFError::UninitializedAccount);
        }
        if !(*token_program == *token_program_id) {
            return Err(QFError::UnexpectedTokenProgramID);
        }
        Self::apply_vote(round, project, voter, project_account.key, amount)
    }

    /// The arithmetic of a vote, once every check has passed.
    fn apply_vote(
        round: &mut Round,
        project: &mut Project,
        voter: &mut Voter,
        project_key: Address,
        amount: u64,
    ) -> (r: Result<(), QFError>)
        ensures
            if vote_succeeds(*old(round), *old(project), *old(voter), amount) {
                r is Ok && vote_applied(
                    *old(round),
                    *old(project),
                    *old(voter),
                    *final(round),
                    *final(project),
                    *final(voter),
                    project_key,
                    amount,
                )
            } else {
                r == Err::<(), QFError>(QFError::ArithmeticOverflow)
            },
            r is Err ==> *final(round) == *old(round) && *final(project) == *old(project)
                && *final(voter) == *old(voter),
    {
        let one = U256::from_u64(ONE);
        let rest = overflow(round.area.checked_sub(project.area))?;
        let total = overflow(voter.votes.checked_add(amount))?;
        let votes = overflow(project.votes.checked_add(amount))?;
        let scaled = overflow(U256::from_u64(total).checked_mul(one))?;
        let root = overflow(sqrt(scaled))?;
        let kept = overflow(project.area_sqrt.checked_sub(voter.votes_sqrt))?;
        let area_sqrt = overflow(kept.checked_add(root))?;
        let square = overflow(area_sqrt.checked_mul(area_sqrt))?;
        let area = overflow(square.checked_div(one))?;
        let v = overflow(area.checked_div(one))?;
        let round_area = overflow(rest.checked_add(area))?;
        let total_area = overflow(round_area.checked_div(one))?;

        project.area = area;
        project.area_sqrt = area_sqrt;
        project.votes = votes;
        voter.votes = total;
        voter.votes_sqrt = root;
        if round.top_area.lt(&v) {
            round.top_area = v;
        }
        if !U256::zero().lt(&round.min_area) || v.lt(&round.min_area) {
            round.min_area = v;
            round.min_area_p = project_key;
        } else if round.min_area_p == project_key {
            round.min_area = v;
        }
        round.area = round_area;
        round.total_area = total_area;
        Ok(())
    }

    /// Opens a round: checks that its record is new, correctly sized and
    /// rent exempt, and that the vault's tokens are held by the authority
    /// derived from the round owner; then starts it with the vault's balance
    /// as its fund.
    pub fn process_start_round(
        program_id: &Address,
        round_account: &AccountRef,
        round: &mut Round,
        data_len: usize,
        rent_exempt: bool,
        round_owner: &Address,
        vault: &Address,
        vault_data: &[u8],
        ratio: u8,
    ) -> (r: Result<(), QFError>)
        ensures
            match start_round_rejection(
                *program_id,
                *round_account,
                *old(round),
                data_len,
                rent_exempt,
                *round_owner,
                vault_data@,
            ) {
                Some(e) => r == Err::<(), QFError>(e) && *final(round) == *old(round),
                None => {
                    &&& r is Ok
                    &&& final(round).fund as nat == le_nat(vault_data@.subrange(64, 72))
                    &&& final(round).area@ == 0
                    &&& final(round).total_area@ == 0
                    &&& final(round).top_area@ == 0
                    &&& final(round).min_area@ == 0
                    &&& is_zero_address(final(round).min_area_p)
                    &&& *final(round) == (Round {
                        status: RoundStatus::Ongoing,
                        ratio,
                        fund: final(round).fund,
                        fee: 0,
                        project_number: 0,
                        owner: *round_owner,
                        vault: *vault,
                        area: final(round).area,
                        total_area: final(round).total_area,
                        top_area: final(round).top_area,
                        min_area: final(round).min_area,
                        min_area_p: final(round).min_area_p,
                    })
                },
            },
    {
        if !owned_by(round_account, program_id) {
            return Err(QFError::IncorrectProgramId);
        }
        if round.is_initialized() {
            return Err(QFError::AccountAlreadyInitialized);
        }
        if data_len != 250 {
            return Err(QFError::InvalidAccountData);
        }
        if !rent_exempt {
            return Err(QFError::AccountNotRentExempt);
        }
        let seeds = vec![*round_owner];
        assert(seed_bytes(seeds@) =~= seq![round_owner.bytes@]);
        let authority = find_program_address(&seeds, program_id);
        let (vault_owner, amount) = match unpack_token_account(vault_data) {
            Some(v) => v,
            None => {
                return Err(QFError::InvalidAccountData);
            },
        };
        match authority {
            Some((k, _)) => {
                if !(vault_owner == k) {
                    return Err(QFError::OwnerMismatch);
                }
            },
            None => {
                return Err(QFError::OwnerMismatch);
            },
        }
        round.status = RoundStatus::Ongoing;
        round.ratio = ratio;
        round.fund = amount;
        round.owner = *round_owner;
        round.vault = *vault;
        round.fee = 0;
        round.project_number = 0;
        round.area = U256::zero();
        round.total_area = U256::zero();
        round.top_area = U256::zero();
        round.min_area = U256::zero();
        round.min_area_p = Address::zero();
        Ok(())
    }

    /// Credits a donation of `amount` tokens, moved into the vault by the
    /// caller, to the round's fund.
    pub fn process_donate(
        program_id: &Address,
        round_account: &AccountRef,
        round: &mut Round,
        to: &Address,
        token_program: &Address,
        token_program_id: &Address,
        amount: u64,
    ) -> (r: Result<(), QFError>)
        ensures
            match donate_rejection(
                *program_id,
                *round_account,
                *old(round),
                *to,
                *token_program,
                *token_program_id,
            ) {
                Some(e) => r == Err::<(), QFError>(e) && *final(round) == *old(round),
                None => if old(round).fund + amount <= u64::MAX {
                    r is Ok && *final(round) == (Round {
                        fund: (old(round).fund + amount) as u64,
                        ..*old(round)
                    })
                } else {
                    r == Err::<(), QFError>(QFError::ArithmeticOverflow) && *final(round)
                        == *old(round)
                },
            },
    {
        if !owned_by(round_account, program_id) {
            return Err(QFError::IncorrectProgramId);
        }
        if round.status != RoundStatus::Ongoing {
            return Err(QFError::RoundStatusError);
        }
        if !(*to == round.vault) {
            return Err(QFError::VaultMismatch);
        }
        if !(*token_program == *token_program_id) {
            return Err(QFError::UnexpectedTokenProgramID);
        }
        round.fund = overflow(round.fund.checked_add(amount))?;
        Ok(())
    }

    /// Creates a project record in an ongoing round and counts it.
    pub fn process_register_project(
        program_id: &Address,
        project_account: &AccountRef,
        project: &mut Project,
        data_len: usize,
        rent_exempt: bool,
        round_account: &AccountRef,
        round: &mut Round,
        project_owner: &Address,
    ) -> (r: Result<(), QFError>)
        ensures
            match register_rejection(
                *program_id,
                *round_account,
                *old(round),
                *project_account,
                *old(project),
                data_len,
                rent_exempt,
            ) {
                Some(e) => r == Err::<(), QFError>(e) && *final(round) == *old(round)
                    && *final(project) == *old(project),
                None => if old(round).project_number < u64::MAX {
                    &&& r is Ok
                    &&& *final(round) == (Round {
                        project_number: (old(round).project_number + 1) as u64,
                        ..*old(round)
                    })
                    &&& final(project).area@ == 0
                    &&& final(project).area_sqrt@ == 0
                    &&& *final(project) == (Project {
                        round: round_account.key,
                        owner: *project_owner,
                        withdraw: false,
                        votes: 0,
                        area: final(project).area,
                        area_sqrt: final(project).area_sqrt,
                    })
                } else {
                    r == Err::<(), QFError>(QFError::ArithmeticOverflow) && *final(round)
                        == *old(round) && *final(project) == *old(project)
                },
            },
    {
        if !owned_by(round_account, program_id) {
            return Err(QFError::IncorrectProgramId);
        }
        if round.status != RoundStatus::Ongoing {
            return Err(QFError::RoundStatusError);
        }
        if !owned_by(project_account, program_id) {
            return Err(QFError::IncorrectProgramId);
        }
        if project.is_initialized() {
            return Err(QFError::AccountAlreadyInitialized);
        }
        if data_len != 137 {
            return Err(QFError::InvalidAccountData);
        }
        if !rent_exempt {
            return Err(QFError::AccountNotRentExempt);
        }
        let count = overflow(round.project_number.checked_add(1))?;
        project.round = round_account.key;
        project.owner = *project_owner;
        project.withdraw = false;
        project.votes = 0;
        project.area = U256::zero();
        project.area_sqrt = U256::zero();
        round.project_number = count;
        Ok(())
    }

    /// Fills a freshly allocated voter record for a registered project.
    pub fn process_init_voter(
        program_id: &Address,
        project_account: &AccountRef,
        project: &Project,
        voter: &mut Voter,
    ) -> (r: Result<(), QFError>)
        ensures
            match init_voter_rejection(*program_id, *project_account, *project, *old(voter)) {
                Some(e) => r == Err::<(), QFError>(e) && *final(voter) == *old(voter),
                None => r is Ok && final(voter).is_initialized && final(voter).votes == 0
                    && final(voter).votes_sqrt@ == 0,
            },
    {
        if !owned_by(project_account, program_id) {
            return Err(QFError::IncorrectProgramId);
        }
        if !project.is_initialized() {
            return Err(QFError::UninitializedAccount);
        }
        if voter.is_initialized {
            return Err(QFError::AccountAlreadyInitialized);
        }
        voter.is_initialized = true;
        voter.votes = 0;
        voter.votes_sqrt = U256::zero();
        Ok(())
    }

    /// Closes voting: an ongoing round becomes finished at its owner's
    /// signed request.
    pub fn process_end_round(
        program_id: &Address,
        round_account: &AccountRef,
        round: &mut Round,
        owner: &AccountRef,
    ) -> (r: Result<(), QFError>)
        ensures
            match end_round_rejection(*program_id, *round_account, *old(round), *owner) {
                Some(e) => r == Err::<(), QFError>(e) && *final(round) == *old(round),
                None => r is Ok && *final(round) == (Round {
                    status: RoundStatus::Finished,
                    ..*old(round)
                }),
            },
    {
        if !owned_by(round_account, program_id) {
            return Err(QFError::IncorrectProgramId);
        }
        if round.status != RoundStatus::Ongoing {
            return Err(QFError::RoundStatusError);
        }
        if !(owner.key == round.owner) {
            return Err(QFError::OwnerMismatch);
        }
        if !owner.is_signer {
            return Err(QFError::MissingRequiredSignature);
        }
        round.status = RoundStatus::Finished;
        Ok(())
    }

    /// Hands the collected fee of a finished round to its owner: returns the
    /// amount to transfer out of the vault and resets the fee to zero.
    pub fn process_withdraw_fee(
        program_id: &Address,
        round_account: &AccountRef,
        round: &mut Round,
        owner: &AccountRef,
        vault: &Address,
        token_program: &Address,
        token_program_id: &Address,
    ) -> (r: Result<u64, QFError>)
        ensures
            match withdraw_fee_rejection(
                *program_id,
                *round_account,
                *old(round),
                *owner,
                *vault,
                *token_program,
                *token_program_id,
            ) {
                Some(e) => r == Err::<u64, QFError>(e) && *final(round) == *old(round),
                None => r == Ok::<u64, QFError>(old(round).fee) && *final(round) == (Round {
                    fee: 0,
                    ..*old(round)
                }),
            },
    {
        if !owned_by(round_account, program_id) {
            return Err(QFError::IncorrectProgramId);
        }
        if round.status != RoundStatus::Finished {
            return Err(QFError::RoundStatusError);
        }
        if !(owner.key == round.owner) {
            return Err(QFError::OwnerMismatch);
        }
        if !owner.is_signer {
            return Err(QFError::MissingRequiredSignature);
        }
        if !(*vault == round.vault) {
            return Err(QFError::VaultMismatch);
        }
        if !(*token_program == *token_program_id) {
            return Err(QFError::UnexpectedTokenProgramID);
        }
        let fee = round.fee;
        round.fee = 0;
        Ok(fee)
    }

    /// Takes `ban_amount` off a project's area and off the round's, and
    /// re-derives the project's root sum from what is left.
    pub fn process_ban_project(
        program_id: &Address,
        round_account: &AccountRef,
        round: &mut Round,
        owner: &AccountRef,
        project_account: &AccountRef,
        project: &mut Project,
        ban_amount: U256,
    ) -> (r: Result<(), QFError>)
        ensures
            match ban_rejection(
                *program_id,
                *round_account,
                *old(round),
                *owner,
                *project_account,
                *old(project),
            ) {
                Some(e) => r == Err::<(), QFError>(e),
                None => if ban_succeeds(*old(round), *old(project), ban_amount@) {
                    &&& r is Ok
                    &&& final(round).area@ == old(round).area@ - ban_amount@
                    &&& final(round).total_area@ == final(round).area@ / (ONE as nat)
                    &&& *final(round) == (Round {
                        area: final(round).area,
                        total_area: final(round).total_area,
                        ..*old(round)
                    })
                    &&& final(project).area@ == old(project).area@ - ban_amount@
                    &&& final(project).area_sqrt@ == banned_root(final(project).area@)
                    &&& *final(project) == (Project {
                        area: final(project).area,
                        area_sqrt: final(project).area_sqrt,
                        ..*old(project)
                    })
                } else {
                    r == Err::<(), QFError>(QFError::ArithmeticOverflow)
                },
            },
            r is Err ==> *final(round) == *old(round) && *final(project) == *old(project),
    {
        if !owned_by(round_account, program_id) {
            return Err(QFError::IncorrectProgramId);
        }
        if round.status != RoundStatus::Ongoing {
            return Err(QFError::RoundStatusError);
        }
        if !(owner.key == round.owner) {
            return Err(QFError::OwnerMismatch);
        }
        if !owner.is_signer {
            return Err(QFError::MissingRequiredSignature);
        }
        if !owned_by(project_account, program_id) {
            return Err(QFError::IncorrectProgramId);
        }
        if !project.is_initialized() {
            return Err(QFError::UninitializedAccount);
        }
        if !(project.round == round_account.key) {
            return Err(QFError::RoundMismatch);
        }
        let area = overflow(project.area.checked_sub(ban_amount))?;
        let descaled = overflow(area.checked_div(U256::from_u64(ONE)))?;
        let root = overflow(sqrt(descaled))?;
        let area_sqrt = overflow(root.checked_mul(U256::from_u64(ROOT_SCALE)))?;
        let round_area = overflow(round.area.checked_sub(ban_amount))?;
        let total_area = overflow(round_area.checked_div(U256::from_u64(ONE)))?;
        project.area = area;
        project.area_sqrt = area_sqrt;
        round.area = round_area;
        round.total_area = total_area;
        Ok(())
    }
}

} // verus!
