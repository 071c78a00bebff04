//! What holds across several instructions: the root sum that votes build
//! does not depend on their order, the round's area stays the sum of the
//! projects' areas, a project is paid once, a finished round is frozen, the
//! cap at a ratio of one, and the fee that is paid out is the fee that was
//! collected.

use crate::error::QFError;
use crate::processor::{
    ban_rejection, capped_votes, donate_rejection, end_round_rejection, register_rejection,
    replaced_area, root_of, start_round_rejection, vote_applied, vote_rejection, voted_area_sqrt,
    withdraw_payout, withdraw_rejection,
};
use crate::state::{AccountRef, Address, Project, Round, RoundStatus, Voter, same};
use crate::precise::ONE;
use crate::wide::u256_limit;
use vstd::prelude::*;

verus! {

/// Total that voter `v` has contributed over the votes `ops`, each a pair
/// of voter index and amount.
pub open spec fn contribution(ops: Seq<(nat, nat)>, v: nat) -> nat
    decreases ops.len(),
{
    if ops.len() == 0 {
        0
    } else {
        contribution(ops.drop_last(), v) + if ops.last().0 == v {
            ops.last().1
        } else {
            0
        }
    }
}

/// A project's root sum after the votes `ops`, each applied as a vote
/// applies it: the voter's previous root is taken off and the root of its
/// new total added.
pub open spec fn replayed_root_sum(ops: Seq<(nat, nat)>) -> int
    decreases ops.len(),
{
    if ops.len() == 0 {
        0
    } else {
        let prev = ops.drop_last();
        let v = ops.last().0;
        let c = contribution(prev, v);
        voted_area_sqrt(replayed_root_sum(prev) as nat, root_of(c), c + ops.last().1)
    }
}

/// Sum, over the voters below `n`, of the root of each one's total.
pub open spec fn sum_of_roots(ops: Seq<(nat, nat)>, n: nat) -> int
    decreases n,
{
    if n == 0 {
        0
    } else {
        sum_of_roots(ops, (n - 1) as nat) + root_of(contribution(ops, (n - 1) as nat))
    }
}

proof fn lemma_sum_of_roots_step(ops: Seq<(nat, nat)>, k: nat)
    requires
        ops.len() > 0,
    ensures
        ({
            let prev = ops.drop_last();
            let v = ops.last().0;
            let c = contribution(prev, v);
            sum_of_roots(ops, k) == sum_of_roots(prev, k) + if v < k {
                root_of(c + ops.last().1) - root_of(c)
            } else {
                0
            }
        }),
    decreases k,
{
    if k > 0 {
        lemma_sum_of_roots_step(ops, (k - 1) as nat);
    }
}

proof fn lemma_sum_of_roots_nonneg(ops: Seq<(nat, nat)>, n: nat)
    ensures
        sum_of_roots(ops, n) >= 0,
    decreases n,
{
    if n > 0 {
        lemma_sum_of_roots_nonneg(ops, (n - 1) as nat);
    }
}

/// Applying votes one at a time with the incremental rule leaves the
/// project's root sum equal to the sum, over its voters, of the root of each
/// voter's total contribution: the same as computing it afresh.
pub proof fn lemma_incremental_root_sum(ops: Seq<(nat, nat)>, n: nat)
    requires
        forall|i: int| 0 <= i < ops.len() ==> ops[i].0 < n,
    ensures
        replayed_root_sum(ops) == sum_of_roots(ops, n),
    decreases ops.len(),
{
    if ops.len() == 0 {
        assert forall|k: nat| k <= n implies sum_of_roots(ops, k) == 0 by {
            lemma_empty_sum(ops, k);
        }
    } else {
        let prev = ops.drop_last();
        assert forall|i: int| 0 <= i < prev.len() implies prev[i].0 < n by {
            assert(prev[i] == ops[i]);
        }
        lemma_incremental_root_sum(prev, n);
        lemma_sum_of_roots_nonneg(prev, n);
        lemma_sum_of_roots_step(ops, n);
        assert(ops[ops.len() - 1].0 < n);
    }
}

proof fn lemma_empty_sum(ops: Seq<(nat, nat)>, k: nat)
    requires
        ops.len() == 0,
    ensures
        sum_of_roots(ops, k) == 0,
    decreases k,
{
    if k > 0 {
        lemma_empty_sum(ops, (k - 1) as nat);
    }
}

proof fn lemma_sum_of_roots_depends_on_totals(a: Seq<(nat, nat)>, b: Seq<(nat, nat)>, n: nat)
    requires
        forall|v: nat| v < n ==> contribution(a, v) == contribution(b, v),
    ensures
        sum_of_roots(a, n) == sum_of_roots(b, n),
    decreases n,
{
    if n > 0 {
        lemma_sum_of_roots_depends_on_totals(a, b, (n - 1) as nat);
    }
}

/// Two runs of votes that give every voter the same total leave the project
/// with the same root sum, whatever the order and the split of the votes.
pub proof fn lemma_root_sum_order_free(a: Seq<(nat, nat)>, b: Seq<(nat, nat)>, n: nat)
    requires
        forall|i: int| 0 <= i < a.len() ==> a[i].0 < n,
        forall|i: int| 0 <= i < b.len() ==> b[i].0 < n,
        forall|v: nat| v < n ==> contribution(a, v) == contribution(b, v),
    ensures
        replayed_root_sum(a) == replayed_root_sum(b),
{
    lemma_incremental_root_sum(a, n);
    lemma_incremental_root_sum(b, n);
    lemma_sum_of_roots_depends_on_totals(a, b, n);
}

/// A voter's stored root is the root of its total: true of a new voter
/// record, and kept by every vote, so the root that a vote takes off a
/// project is the root of what the voter had given before.
pub proof fn lemma_vote_keeps_voter_root(
    round: Round,
    project: Project,
    voter: Voter,
    round1: Round,
    project1: Project,
    voter1: Voter,
    project_key: Address,
    amount: u64,
)
    requires
        voter.votes_sqrt@ == root_of(voter.votes as nat),
        vote_applied(round, project, voter, round1, project1, voter1, project_key, amount),
    ensures
        voter1.votes_sqrt@ == root_of(voter1.votes as nat),
        project1.area_sqrt@ == voted_area_sqrt(
            project.area_sqrt@,
            root_of(voter.votes as nat),
            voter1.votes as nat,
        ),
{
}

/// Sum of the projects' areas.
pub open spec fn sum_of_areas(areas: Seq<nat>) -> int
    decreases areas.len(),
{
    if areas.len() == 0 {
        0
    } else {
        sum_of_areas(areas.drop_last()) + areas.last()
    }
}

proof fn lemma_sum_of_areas_update(areas: Seq<nat>, i: int, x: nat)
    requires
        0 <= i < areas.len(),
    ensures
        sum_of_areas(areas.update(i, x)) == sum_of_areas(areas) - areas[i] + x,
    decreases areas.len(),
{
    let u = areas.update(i, x);
    if i < areas.len() - 1 {
        assert(u.drop_last() =~= areas.drop_last().update(i, x));
        lemma_sum_of_areas_update(areas.drop_last(), i, x);
    } else {
        assert(u.drop_last() =~= areas.drop_last());
    }
}

/// A vote replaces one project's area and moves the round's area by the
/// same change, so the round's area stays the sum of the projects' areas.
pub proof fn lemma_vote_keeps_round_area(areas: Seq<nat>, i: int, round_area: nat, new_area: nat)
    requires
        round_area == sum_of_areas(areas),
        0 <= i < areas.len(),
    ensures
        replaced_area(round_area, areas[i], new_area) == sum_of_areas(areas.update(i, new_area)),
{
    lemma_sum_of_areas_update(areas, i, new_area);
}

/// A ban takes the same amount off one project's area and off the round's,
/// so the round's area stays the sum of the projects' areas.
pub proof fn lemma_ban_keeps_round_area(areas: Seq<nat>, i: int, round_area: nat, ban: nat)
    requires
        round_area == sum_of_areas(areas),
        0 <= i < areas.len(),
        ban <= areas[i],
    ensures
        round_area - ban == sum_of_areas(areas.update(i, (areas[i] - ban) as nat)),
{
    lemma_sum_of_areas_update(areas, i, (areas[i] - ban) as nat);
}

/// A newly registered project has no area, so the round's area stays the
/// sum of the projects' areas.
pub proof fn lemma_register_keeps_round_area(areas: Seq<nat>, round_area: nat)
    requires
        round_area == sum_of_areas(areas),
    ensures
        round_area == sum_of_areas(areas.push(0)),
{
    assert(areas.push(0).drop_last() =~= areas);
}

/// Once a withdrawal has paid a project, a second withdrawal for it, with
/// the same accounts, is refused as already paid.
pub proof fn lemma_no_double_payout(
    program_id: Address,
    round_account: AccountRef,
    round: Round,
    project_account: AccountRef,
    project: Project,
    project_owner: AccountRef,
    token_program: Address,
    token_program_id: Address,
    round1: Round,
    project1: Project,
)
    requires
        withdraw_rejection(
            program_id,
            round_account,
            round,
            project_account,
            project,
            project_owner,
            token_program,
            token_program_id,
        ) is None,
        withdraw_payout(round, project) is Some,
        round1 == (Round { fee: round1.fee, ..round }),
        project1 == (Project { withdraw: true, ..project }),
    ensures
        withdraw_rejection(
            program_id,
            round_account,
            round1,
            project_account,
            project1,
            project_owner,
            token_program,
            token_program_id,
        ) == Some(QFError::ProjectAlreadyWithdraw),
{
}

/// A finished round refuses votes, registrations, bans, donations and a
/// second end with a status error.
pub proof fn lemma_finished_round_is_frozen(
    program_id: Address,
    round_account: AccountRef,
    round: Round,
    project_account: AccountRef,
    project: Project,
    voter_account: AccountRef,
    voter: Voter,
    owner: AccountRef,
    from: Address,
    to: Address,
    token_program: Address,
    token_program_id: Address,
    data_len: usize,
    rent_exempt: bool,
)
    requires
        round.status == RoundStatus::Finished,
        same(round_account.owner, program_id),
    ensures
        vote_rejection(
            program_id,
            round_account,
            round,
            project_account,
            project,
            voter_account,
            voter,
            from,
            to,
            token_program,
            token_program_id,
        ) == Some(QFError::RoundStatusError),
        register_rejection(
            program_id,
            round_account,
            round,
            project_account,
            project,
            data_len,
            rent_exempt,
        ) == Some(QFError::RoundStatusError),
        ban_rejection(program_id, round_account, round, owner, project_account, project) == Some(
            QFError::RoundStatusError,
        ),
        end_round_rejection(program_id, round_account, round, owner) == Some(
            QFError::RoundStatusError,
        ),
        donate_rejection(program_id, round_account, round, to, token_program, token_program_id)
            == Some(QFError::RoundStatusError),
{
}

/// A round that has started cannot be started again.
pub proof fn lemma_started_round_cannot_restart(
    program_id: Address,
    round_account: AccountRef,
    round: Round,
    data_len: usize,
    rent_exempt: bool,
    round_owner: Address,
    vault_data: Seq<u8>,
)
    requires
        round.status != RoundStatus::Uninitialized,
        same(round_account.owner, program_id),
    ensures
        start_round_rejection(
            program_id,
            round_account,
            round,
            data_len,
            rent_exempt,
            round_owner,
            vault_data,
        ) == Some(QFError::AccountAlreadyInitialized),
{
}

/// With a ratio of one the cap leaves a project's area unchanged when the
/// largest and smallest areas are equal, and otherwise sets it to the
/// average area: the shrink factor is zero.
pub proof fn lemma_unit_ratio_cap(votes: nat, total: nat, n: nat, t: nat, m: nat)
    requires
        n > 0,
        m <= total / n <= t,
        t * ONE < u256_limit(),
        votes < u256_limit(),
    ensures
        capped_votes(votes, total, n, t, m, 1) == Some(
            if t == m {
                votes
            } else {
                total / n
            },
        ),
{
    let a = total / n;
    let d = (t - a) + (a - m);
    let one = ONE as nat;
    assert(((a - m) as nat) * 1 == a - m);
    assert(0nat * a == 0);
    assert(0nat * one == 0);
    assert(d == t - m);
    if t != m {
        assert(0nat / (d as nat) == 0);
        if votes > a {
            assert(0nat * ((votes - a) as nat) == 0);
            assert(0nat / one == 0);
        } else {
            let x = (a - votes) as nat;
            assert(x <= t);
            assert(x * one <= t * one) by (nonlinear_arith)
                requires
                    x <= t,
            ;
            assert((x * one) / one == x) by (nonlinear_arith)
                requires
                    one > 0,
            ;
        }
    }
}

/// Fee held by a round after withdrawals that collected `fees`, starting
/// from none.
pub open spec fn sum_of_fees(fees: Seq<u64>) -> nat
    decreases fees.len(),
{
    if fees.len() == 0 {
        0
    } else {
        sum_of_fees(fees.drop_last()) + fees.last() as nat
    }
}

/// Over a run of withdrawals, each adding its fee to the round as a
/// withdrawal does, the round ends up holding the sum of those fees, which
/// is what taking out the fee then pays.
pub proof fn lemma_fee_accounting(rounds: Seq<Round>, fees: Seq<u64>)
    requires
        rounds.len() == fees.len() + 1,
        rounds[0].fee == 0,
        forall|i: int|
            0 <= i < fees.len() ==> rounds[i].fee + fees[i] <= u64::MAX && rounds[i + 1] == (Round {
                fee: (rounds[i].fee + fees[i]) as u64,
                ..rounds[i]
            }),
    ensures
        rounds.last().fee == sum_of_fees(fees),
    decreases fees.len(),
{
    if fees.len() > 0 {
        let k = fees.len() - 1;
        lemma_fee_accounting(rounds.drop_last(), fees.drop_last());
        assert(rounds.drop_last().last() == rounds[k]);
        assert(fees.drop_last() =~= fees.subrange(0, k));
    }
}

} // verus!
