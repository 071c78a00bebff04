use quadratic_funding::error::QFError;
use quadratic_funding::precise::ONE;
use quadratic_funding::processor::{voter_top_up, Processor};
use quadratic_funding::state::{AccountRef, Address, Project, Round, RoundStatus, Voter};
use quadratic_funding::wide::U256;
use solana_program::pubkey::Pubkey;

fn addr(n: u8) -> Address {
    Address { bytes: [n; 32] }
}

fn program() -> Address {
    addr(100)
}

fn token_program() -> Address {
    addr(101)
}

fn owned(key: Address) -> AccountRef {
    AccountRef { key, owner: program(), is_signer: false }
}

fn signer(key: Address) -> AccountRef {
    AccountRef { key, owner: addr(0), is_signer: true }
}

fn big(v: u64) -> U256 {
    U256::from_u64(v)
}

fn scaled(v: u64) -> U256 {
    // v * ONE, written as limbs so that no arithmetic of the library is used
    let x = (v as u128) * (ONE as u128);
    U256 { limbs: [x as u64, (x >> 64) as u64, 0, 0] }
}

fn derived(seeds: &[&[u8]]) -> Address {
    let id = Pubkey::new_from_array(program().bytes);
    Address { bytes: Pubkey::find_program_address(seeds, &id).0.to_bytes() }
}

fn token_account(owner: Address, amount: u64) -> Vec<u8> {
    let mut d = vec![0u8; 165];
    d[32..64].copy_from_slice(&owner.bytes);
    d[64..72].copy_from_slice(&amount.to_le_bytes());
    d[108] = 1;
    d
}

struct Fixture {
    round_key: Address,
    round_owner: Address,
    vault: Address,
    round: Round,
}

fn started(ratio: u8) -> Fixture {
    let round_key = addr(2);
    let round_owner = addr(3);
    let vault = addr(4);
    let mut round = Round::unpack_from_slice(&[0u8; 250]).unwrap();
    let authority = derived(&[&round_owner.bytes]);
    Processor::process_start_round(
        &program(),
        &owned(round_key),
        &mut round,
        250,
        true,
        &round_owner,
        &vault,
        &token_account(authority, 0),
        ratio,
    )
    .unwrap();
    Fixture { round_key, round_owner, vault, round }
}

fn register(f: &mut Fixture, key: Address, owner: Address) -> Project {
    let mut project = Project::unpack_from_slice(&[0u8; 137]).unwrap();
    Processor::process_register_project(
        &program(),
        &owned(key),
        &mut project,
        137,
        true,
        &owned(f.round_key),
        &mut f.round,
        &owner,
    )
    .unwrap();
    project
}

fn voter_for(project_key: Address, project: &Project) -> Voter {
    let mut voter = Voter::unpack_from_slice(&[0u8; 41]).unwrap();
    Processor::process_init_voter(&program(), &owned(project_key), project, &mut voter).unwrap();
    voter
}

fn vote(
    f: &mut Fixture,
    project_key: Address,
    project: &mut Project,
    from: Address,
    voter: &mut Voter,
    amount: u64,
) -> Result<(), QFError> {
    let voter_key = derived(&[&project_key.bytes, &from.bytes]);
    Processor::process_vote(
        &program(),
        &owned(f.round_key),
        &mut f.round,
        &owned(project_key),
        project,
        &owned(voter_key),
        voter,
        &from,
        &f.vault,
        &token_program(),
        &token_program(),
        amount,
    )
}

fn end(f: &mut Fixture) {
    Processor::process_end_round(&program(), &owned(f.round_key), &mut f.round, &signer(f.round_owner))
        .unwrap();
}

fn withdraw(f: &mut Fixture, project_key: Address, project: &mut Project, owner: Address) -> Result<u64, QFError> {
    Processor::process_withdraw(
        &program(),
        &owned(f.round_key),
        &mut f.round,
        &owned(project_key),
        project,
        &signer(owner),
        &token_program(),
        &token_program(),
    )
}

#[test]
fn one_matches_fixed_point_scale() {
    assert_eq!(ONE as u128, spl_math::precise_number::ONE);
}

#[test]
fn start_round_takes_vault_balance_as_fund() {
    let mut round = Round::unpack_from_slice(&[0u8; 250]).unwrap();
    let owner = addr(3);
    let authority = derived(&[&owner.bytes]);
    let r = Processor::process_start_round(
        &program(),
        &owned(addr(2)),
        &mut round,
        250,
        true,
        &owner,
        &addr(4),
        &token_account(authority, 777),
        3,
    );
    assert_eq!(r, Ok(()));
    assert_eq!(round.status, RoundStatus::Ongoing);
    assert_eq!(round.fund, 777);
    assert_eq!(round.ratio, 3);
    assert_eq!(round.owner, owner);
    assert_eq!(round.vault, addr(4));
}

#[test]
fn start_round_rejects_foreign_vault_authority() {
    let mut round = Round::unpack_from_slice(&[0u8; 250]).unwrap();
    let r = Processor::process_start_round(
        &program(),
        &owned(addr(2)),
        &mut round,
        250,
        true,
        &addr(3),
        &addr(4),
        &token_account(addr(9), 0),
        2,
    );
    assert_eq!(r, Err(QFError::OwnerMismatch));
    assert_eq!(round.status, RoundStatus::Uninitialized);
}

#[test]
fn start_round_structural_errors() {
    let mut round = Round::unpack_from_slice(&[0u8; 250]).unwrap();
    let owner = addr(3);
    let good = token_account(derived(&[&owner.bytes]), 0);
    let not_ours = AccountRef { key: addr(2), owner: addr(7), is_signer: false };
    let r = Processor::process_start_round(&program(), &not_ours, &mut round, 250, true, &owner, &addr(4), &good, 2);
    assert_eq!(r, Err(QFError::IncorrectProgramId));
    let r = Processor::process_start_round(&program(), &owned(addr(2)), &mut round, 249, true, &owner, &addr(4), &good, 2);
    assert_eq!(r, Err(QFError::InvalidAccountData));
    let r = Processor::process_start_round(&program(), &owned(addr(2)), &mut round, 250, false, &owner, &addr(4), &good, 2);
    assert_eq!(r, Err(QFError::AccountNotRentExempt));
    let r = Processor::process_start_round(&program(), &owned(addr(2)), &mut round, 250, true, &owner, &addr(4), &good[..100], 2);
    assert_eq!(r, Err(QFError::InvalidAccountData));
}

#[test]
fn started_round_cannot_start_again() {
    let mut f = started(2);
    let authority = derived(&[&f.round_owner.bytes]);
    let r = Processor::process_start_round(
        &program(),
        &owned(f.round_key),
        &mut f.round,
        250,
        true,
        &f.round_owner,
        &f.vault,
        &token_account(authority, 0),
        2,
    );
    assert_eq!(r, Err(QFError::AccountAlreadyInitialized));
}

#[test]
fn quadratic_round_with_two_projects() {
    let mut f = started(2);
    Processor::process_donate(&program(), &owned(f.round_key), &mut f.round, &f.vault, &token_program(), &token_program(), 1000)
        .unwrap();
    assert_eq!(f.round.fund, 1000);
    let (k1, o1, k2, o2) = (addr(10), addr(11), addr(20), addr(21));
    let mut pa = register(&mut f, k1, o1);
    let mut pb = register(&mut f, k2, o2);
    assert_eq!(f.round.project_number, 2);
    let (alice, bob) = (addr(30), addr(31));
    let mut a1 = voter_for(k1, &pa);
    let mut b1 = voter_for(k1, &pa);
    let mut a2 = voter_for(k2, &pb);
    let mut b2 = voter_for(k2, &pb);
    vote(&mut f, k1, &mut pa, alice, &mut a1, 100).unwrap();
    assert_eq!(pa.area_sqrt, scaled(10));
    assert_eq!(pa.area, scaled(100));
    vote(&mut f, k1, &mut pa, bob, &mut b1, 400).unwrap();
    vote(&mut f, k2, &mut pb, alice, &mut a2, 100).unwrap();
    vote(&mut f, k2, &mut pb, bob, &mut b2, 400).unwrap();
    for p in [&pa, &pb] {
        assert_eq!(p.area_sqrt, scaled(30));
        assert_eq!(p.area, scaled(900));
        assert_eq!(p.votes, 500);
    }
    assert_eq!(b1.votes_sqrt, scaled(20));
    assert_eq!(f.round.area, scaled(1800));
    assert_eq!(f.round.total_area, big(1800));
    assert_eq!(f.round.top_area, big(900));
    assert_eq!(f.round.min_area, big(900));
    assert_eq!(f.round.min_area_p, k2);
    end(&mut f);
    assert_eq!(Processor::withdraw_amount(&f.round, &pa), Ok((950, 50)));
    assert_eq!(withdraw(&mut f, k1, &mut pa, o1), Ok(950));
    assert_eq!(withdraw(&mut f, k2, &mut pb, o2), Ok(950));
    assert!(pa.withdraw && pb.withdraw);
    assert_eq!(f.round.fee, 100);
    assert!(950 + 950 <= 1000 + 500 + 500);
}

#[test]
fn round_area_is_sum_of_project_areas() {
    let mut f = started(2);
    let (k1, k2) = (addr(10), addr(20));
    let mut pa = register(&mut f, k1, addr(11));
    let mut pb = register(&mut f, k2, addr(21));
    let mut v1 = voter_for(k1, &pa);
    let mut v2 = voter_for(k2, &pb);
    vote(&mut f, k1, &mut pa, addr(30), &mut v1, 4).unwrap();
    vote(&mut f, k2, &mut pb, addr(30), &mut v2, 1).unwrap();
    vote(&mut f, k1, &mut pa, addr(30), &mut v1, 5).unwrap();
    assert_eq!(pa.area, scaled(9));
    assert_eq!(pb.area, scaled(1));
    assert_eq!(f.round.area, scaled(10));
    Processor::process_ban_project(
        &program(),
        &owned(f.round_key),
        &mut f.round,
        &signer(f.round_owner),
        &owned(k1),
        &mut pa,
        scaled(5),
    )
    .unwrap();
    assert_eq!(pa.area, scaled(4));
    assert_eq!(f.round.area, scaled(5));
}

#[test]
fn root_sum_does_not_depend_on_vote_order() {
    let mut f = started(2);
    let (k1, k2) = (addr(10), addr(20));
    let mut pa = register(&mut f, k1, addr(11));
    let mut pb = register(&mut f, k2, addr(21));
    let (alice, bob) = (addr(30), addr(31));
    let (mut a1, mut b1) = (voter_for(k1, &pa), voter_for(k1, &pa));
    let (mut a2, mut b2) = (voter_for(k2, &pb), voter_for(k2, &pb));
    vote(&mut f, k1, &mut pa, alice, &mut a1, 2).unwrap();
    vote(&mut f, k1, &mut pa, bob, &mut b1, 7).unwrap();
    vote(&mut f, k1, &mut pa, alice, &mut a1, 3).unwrap();
    vote(&mut f, k2, &mut pb, bob, &mut b2, 7).unwrap();
    vote(&mut f, k2, &mut pb, alice, &mut a2, 5).unwrap();
    assert_eq!(pa.area_sqrt, pb.area_sqrt);
    assert_eq!(pa.area, pb.area);
    assert_eq!(a1.votes_sqrt, a2.votes_sqrt);
}

#[test]
fn second_withdrawal_is_refused() {
    let mut f = started(2);
    let k1 = addr(10);
    let mut pa = register(&mut f, k1, addr(11));
    let mut v1 = voter_for(k1, &pa);
    vote(&mut f, k1, &mut pa, addr(30), &mut v1, 100).unwrap();
    end(&mut f);
    assert_eq!(withdraw(&mut f, k1, &mut pa, addr(11)), Ok(95));
    let (round_before, project_before) = (f.round, pa);
    assert_eq!(withdraw(&mut f, k1, &mut pa, addr(11)), Err(QFError::ProjectAlreadyWithdraw));
    assert_eq!(f.round, round_before);
    assert_eq!(pa, project_before);
}

#[test]
fn finished_round_refuses_changes() {
    let mut f = started(2);
    let k1 = addr(10);
    let mut pa = register(&mut f, k1, addr(11));
    let mut v1 = voter_for(k1, &pa);
    end(&mut f);
    assert_eq!(vote(&mut f, k1, &mut pa, addr(30), &mut v1, 1), Err(QFError::RoundStatusError));
    let mut fresh = Project::unpack_from_slice(&[0u8; 137]).unwrap();
    let r = Processor::process_register_project(&program(), &owned(addr(12)), &mut fresh, 137, true, &owned(f.round_key), &mut f.round, &addr(13));
    assert_eq!(r, Err(QFError::RoundStatusError));
    let r = Processor::process_ban_project(&program(), &owned(f.round_key), &mut f.round, &signer(f.round_owner), &owned(k1), &mut pa, big(0));
    assert_eq!(r, Err(QFError::RoundStatusError));
    let r = Processor::process_end_round(&program(), &owned(f.round_key), &mut f.round, &signer(f.round_owner));
    assert_eq!(r, Err(QFError::RoundStatusError));
    let r = Processor::process_donate(&program(), &owned(f.round_key), &mut f.round, &f.vault, &token_program(), &token_program(), 5);
    assert_eq!(r, Err(QFError::RoundStatusError));
    assert_eq!(f.round.status, RoundStatus::Finished);
}

fn capped_round(ratio: u8, top: u64, min: u64) -> Round {
    let mut round = Round::unpack_from_slice(&[0u8; 250]).unwrap();
    round.status = RoundStatus::Finished;
    round.ratio = ratio;
    round.fund = 1000;
    round.project_number = 2;
    round.area = scaled(300);
    round.total_area = big(300);
    round.top_area = big(top);
    round.min_area = big(min);
    round
}

fn project_with_area(area: u64, votes: u64) -> Project {
    let mut p = Project::unpack_from_slice(&[0u8; 137]).unwrap();
    p.round = addr(2);
    p.votes = votes;
    p.area = scaled(area);
    p
}

#[test]
fn unit_ratio_sets_spread_projects_to_average() {
    // average 150, spread 200 - 100: the capped area is the average
    let round = capped_round(1, 200, 100);
    assert_eq!(Processor::withdraw_amount(&round, &project_with_area(200, 10)), Ok((485, 25)));
    assert_eq!(Processor::withdraw_amount(&round, &project_with_area(100, 10)), Ok((485, 25)));
}

#[test]
fn unit_ratio_without_spread_keeps_area() {
    let round = capped_round(1, 150, 150);
    // 10 + 1000 * 200 / 300 = 676, fee 33
    assert_eq!(Processor::withdraw_amount(&round, &project_with_area(200, 10)), Ok((643, 33)));
}

#[test]
fn larger_ratio_keeps_area_when_shrink_reaches_one() {
    // a = 150, d = 50 + 50 * 3 = 200, s = 2 * 150 / 200 = 1: no cap
    let round = capped_round(3, 200, 100);
    assert_eq!(Processor::withdraw_amount(&round, &project_with_area(200, 0)), Ok((633, 33)));
}

#[test]
fn no_area_pays_votes_less_fee() {
    let mut round = capped_round(2, 0, 0);
    round.total_area = big(0);
    assert_eq!(Processor::withdraw_amount(&round, &project_with_area(0, 200)), Ok((190, 10)));
}

#[test]
fn fee_withdrawal_pays_collected_fees() {
    let mut f = started(2);
    let (k1, k2) = (addr(10), addr(20));
    let mut pa = register(&mut f, k1, addr(11));
    let mut pb = register(&mut f, k2, addr(21));
    let mut v1 = voter_for(k1, &pa);
    let mut v2 = voter_for(k2, &pb);
    vote(&mut f, k1, &mut pa, addr(30), &mut v1, 100).unwrap();
    vote(&mut f, k2, &mut pb, addr(30), &mut v2, 300).unwrap();
    end(&mut f);
    let before = f.round.fee;
    let w1 = withdraw(&mut f, k1, &mut pa, addr(11)).unwrap();
    let fee1 = f.round.fee - before;
    let w2 = withdraw(&mut f, k2, &mut pb, addr(21)).unwrap();
    let fee2 = f.round.fee - before - fee1;
    assert_eq!((w1, fee1), (95, 5));
    assert_eq!((w2, fee2), (285, 15));
    let paid = Processor::process_withdraw_fee(
        &program(),
        &owned(f.round_key),
        &mut f.round,
        &signer(f.round_owner),
        &f.vault,
        &token_program(),
        &token_program(),
    );
    assert_eq!(paid, Ok(fee1 + fee2));
    assert_eq!(f.round.fee, 0);
}

#[test]
fn ban_rederives_root_sum() {
    let mut f = started(2);
    let k1 = addr(10);
    let mut pa = register(&mut f, k1, addr(11));
    let mut v1 = voter_for(k1, &pa);
    vote(&mut f, k1, &mut pa, addr(30), &mut v1, 900).unwrap();
    assert_eq!(pa.area, scaled(900));
    Processor::process_ban_project(&program(), &owned(f.round_key), &mut f.round, &signer(f.round_owner), &owned(k1), &mut pa, scaled(500))
        .unwrap();
    assert_eq!(pa.area, scaled(400));
    assert_eq!(pa.area_sqrt, big(20_012_496_000_000));
    assert_eq!(f.round.area, scaled(400));
    assert_eq!(f.round.total_area, big(400));
    let too_much = Processor::process_ban_project(&program(), &owned(f.round_key), &mut f.round, &signer(f.round_owner), &owned(k1), &mut pa, scaled(401));
    assert_eq!(too_much, Err(QFError::ArithmeticOverflow));
    assert_eq!(pa.area, scaled(400));
}

#[test]
fn handler_identity_errors() {
    let mut f = started(2);
    let k1 = addr(10);
    let mut pa = register(&mut f, k1, addr(11));
    let mut v1 = voter_for(k1, &pa);
    // vault mismatch
    let voter_key = derived(&[&k1.bytes, &addr(30).bytes]);
    let r = Processor::process_vote(&program(), &owned(f.round_key), &mut f.round, &owned(k1), &mut pa, &owned(voter_key), &mut v1, &addr(30), &addr(99), &token_program(), &token_program(), 1);
    assert_eq!(r, Err(QFError::VaultMismatch));
    // voter record not derived from this project and contributor
    let r = Processor::process_vote(&program(), &owned(f.round_key), &mut f.round, &owned(k1), &mut pa, &owned(voter_key), &mut v1, &addr(31), &f.vault, &token_program(), &token_program(), 1);
    assert_eq!(r, Err(QFError::VoterMismatch));
    // wrong token program
    let r = Processor::process_vote(&program(), &owned(f.round_key), &mut f.round, &owned(k1), &mut pa, &owned(voter_key), &mut v1, &addr(30), &f.vault, &addr(98), &token_program(), 1);
    assert_eq!(r, Err(QFError::UnexpectedTokenProgramID));
    // project of another round
    let mut other = pa;
    other.round = addr(77);
    let r = Processor::process_vote(&program(), &owned(f.round_key), &mut f.round, &owned(k1), &mut other, &owned(voter_key), &mut v1, &addr(30), &f.vault, &token_program(), &token_program(), 1);
    assert_eq!(r, Err(QFError::RoundMismatch));
    // end round by someone else, or unsigned
    let r = Processor::process_end_round(&program(), &owned(f.round_key), &mut f.round, &signer(addr(50)));
    assert_eq!(r, Err(QFError::OwnerMismatch));
    let unsigned = AccountRef { key: f.round_owner, owner: addr(0), is_signer: false };
    let r = Processor::process_end_round(&program(), &owned(f.round_key), &mut f.round, &unsigned);
    assert_eq!(r, Err(QFError::MissingRequiredSignature));
    // registering over a created project
    let r = Processor::process_register_project(&program(), &owned(k1), &mut pa, 137, true, &owned(f.round_key), &mut f.round, &addr(11));
    assert_eq!(r, Err(QFError::AccountAlreadyInitialized));
    // voter created twice
    let r = Processor::process_init_voter(&program(), &owned(k1), &pa, &mut v1);
    assert_eq!(r, Err(QFError::AccountAlreadyInitialized));
    assert_eq!(f.round.status, RoundStatus::Ongoing);
}

#[test]
fn withdraw_by_other_owner_is_refused() {
    let mut f = started(2);
    let k1 = addr(10);
    let mut pa = register(&mut f, k1, addr(11));
    end(&mut f);
    assert_eq!(withdraw(&mut f, k1, &mut pa, addr(12)), Err(QFError::OwnerMismatch));
    let r = Processor::process_withdraw_fee(&program(), &owned(f.round_key), &mut f.round, &signer(f.round_owner), &addr(99), &token_program(), &token_program());
    assert_eq!(r, Err(QFError::VaultMismatch));
}

#[test]
fn donation_overflow_is_refused() {
    let mut f = started(2);
    f.round.fund = u64::MAX - 1;
    let r = Processor::process_donate(&program(), &owned(f.round_key), &mut f.round, &f.vault, &token_program(), &token_program(), 2);
    assert_eq!(r, Err(QFError::ArithmeticOverflow));
    assert_eq!(f.round.fund, u64::MAX - 1);
}

#[test]
fn fixed_point_shrink_pulls_toward_average() {
    // a = 150, d = 150 + 50 * 2 = 250, s = 150 / 250 = 0.6
    let round = capped_round(2, 300, 100);
    // above average: 150 + 0.6 * 150 = 240; 1000 * 240 / 300 = 800, fee 40
    assert_eq!(Processor::withdraw_amount(&round, &project_with_area(300, 0)), Ok((760, 40)));
    // below average: 100 + 0.4 * 50 = 120; 1000 * 120 / 300 = 400, fee 20
    assert_eq!(Processor::withdraw_amount(&round, &project_with_area(100, 0)), Ok((380, 20)));
}

#[test]
fn minimum_holder_is_not_recomputed() {
    // The smallest area is tracked incrementally: when the project holding it
    // grows past another project, the minimum follows the holder and is not
    // searched for again over all projects.
    let mut f = started(2);
    let (ka, kb) = (addr(10), addr(20));
    let mut pa = register(&mut f, ka, addr(11));
    let mut pb = register(&mut f, kb, addr(21));
    let mut va = voter_for(ka, &pa);
    let mut vb = voter_for(kb, &pb);
    vote(&mut f, ka, &mut pa, addr(30), &mut va, 1).unwrap();
    assert_eq!((f.round.min_area, f.round.min_area_p), (big(1), ka));
    vote(&mut f, kb, &mut pb, addr(30), &mut vb, 4).unwrap();
    assert_eq!((f.round.min_area, f.round.min_area_p), (big(1), ka));
    vote(&mut f, ka, &mut pa, addr(30), &mut va, 8).unwrap();
    assert_eq!(pa.area, scaled(9));
    assert_eq!(pb.area, scaled(4));
    assert_eq!((f.round.min_area, f.round.min_area_p), (big(9), ka));
    assert_eq!(f.round.top_area, big(9));
}

#[test]
fn ban_refuses_project_of_other_round() {
    let mut f = started(2);
    let k1 = addr(10);
    let mut pa = register(&mut f, k1, addr(11));
    let mut v1 = voter_for(k1, &pa);
    vote(&mut f, k1, &mut pa, addr(30), &mut v1, 4).unwrap();
    let mut foreign = pa;
    foreign.round = addr(77);
    let before = f.round;
    let r = Processor::process_ban_project(&program(), &owned(f.round_key), &mut f.round, &signer(f.round_owner), &owned(k1), &mut foreign, scaled(1));
    assert_eq!(r, Err(QFError::RoundMismatch));
    assert_eq!(f.round, before);
    assert_eq!(foreign.area, scaled(4));
}

#[test]
fn start_round_resets_leftover_fields() {
    let mut round = Round::unpack_from_slice(&[0u8; 250]).unwrap();
    round.fee = 9;
    round.project_number = 4;
    round.total_area = big(5);
    round.top_area = big(3);
    round.min_area = big(2);
    round.min_area_p = addr(5);
    let owner = addr(3);
    let authority = derived(&[&owner.bytes]);
    Processor::process_start_round(&program(), &owned(addr(2)), &mut round, 250, true, &owner, &addr(4), &token_account(authority, 10), 2)
        .unwrap();
    assert_eq!(round.fee, 0);
    assert_eq!(round.project_number, 0);
    assert_eq!(round.total_area, big(0));
    assert_eq!(round.top_area, big(0));
    assert_eq!(round.min_area, big(0));
    assert_eq!(round.min_area_p, addr(0));
    assert_eq!(round.fund, 10);
}

#[test]
fn register_clears_root_sum() {
    let mut f = started(2);
    let mut project = Project::unpack_from_slice(&[0u8; 137]).unwrap();
    project.area_sqrt = big(7);
    project.votes = 3;
    Processor::process_register_project(&program(), &owned(addr(10)), &mut project, 137, true, &owned(f.round_key), &mut f.round, &addr(11))
        .unwrap();
    assert_eq!(project.area_sqrt, big(0));
    assert_eq!(project.area, big(0));
    assert_eq!(project.votes, 0);
    assert_eq!(project.round, f.round_key);
}

#[test]
fn voter_top_up_amounts() {
    assert_eq!(voter_top_up(1000, 300), 700);
    assert_eq!(voter_top_up(1000, 1500), 0);
    assert_eq!(voter_top_up(0, 0), 1);
    assert_eq!(voter_top_up(0, 5), 0);
}
