//! The three records of the program (round, project, voter), the account
//! identities they refer to, and their fixed-width byte layouts.

use crate::bytes::{le_nat, put, read_bytes32, read_u256, read_u64, u256_bytes, u64_bytes};
use crate::error::QFError;
use crate::wide::U256;
use vstd::prelude::*;

verus! {

/// A 32-byte account identity.
#[derive(Clone, Copy, Debug, Eq)]
pub struct Address {
    pub bytes: [u8; 32],
}

impl PartialEq for Address {
    fn eq(&self, o: &Address) -> (r: bool) {
        let mut i: usize = 0;
        while i < 32
            invariant
                0 <= i <= 32,
                forall|j: int| 0 <= j < i ==> self.bytes@[j] == o.bytes@[j],
            decreases 32 - i,
        {
            if self.bytes[i] != o.bytes[i] {
                return false;
            }
            i = i + 1;
        }
        assert(self.bytes@ =~= o.bytes@);
        true
    }
}

impl vstd::std_specs::cmp::PartialEqSpecImpl for Address {
    open spec fn obeys_eq_spec() -> bool {
        true
    }

    open spec fn eq_spec(&self, o: &Address) -> bool {
        self.bytes@ == o.bytes@
    }
}

impl Address {
    /// The all-zero identity, which marks a project record as not created.
    pub fn zero() -> (r: Address)
        ensures
            r.bytes@ == Seq::new(32, |i: int| 0u8),
    {
        let r = Address { bytes: [0u8; 32] };
        assert(r.bytes@ =~= Seq::new(32, |i: int| 0u8));
        r
    }
}

/// True when two identities hold the same bytes.
pub open spec fn same(a: Address, b: Address) -> bool {
    a.bytes@ == b.bytes@
}

/// The address, and its bump seed, that the ledger derives for a program
/// from a list of seeds.
pub uninterp spec fn program_address(seeds: Seq<Seq<u8>>, program_id: Seq<u8>) -> Option<(Seq<u8>, u8)>;

/// The seed bytes of a list of identities.
pub open spec fn seed_bytes(seeds: Seq<Address>) -> Seq<Seq<u8>> {
    seeds.map_values(|a: Address| a.bytes@)
}

/// Relies on solana-program's `Pubkey::try_find_program_address`: a search
/// over bump seeds that depends on the seeds and the program id alone, and
/// gives `None` when no bump seed yields a valid address.
#[verifier::external_body]
pub(crate) fn find_program_address(seeds: &Vec<Address>, program_id: &Address) -> (r: Option<(Address, u8)>)
    ensures
        match r {
            Some((k, b)) => program_address(seed_bytes(seeds@), program_id.bytes@) == Some((k.bytes@, b)),
            None => program_address(seed_bytes(seeds@), program_id.bytes@) is None,
        },
{
    let refs: Vec<&[u8]> = seeds.iter().map(|a| &a.bytes[..]).collect();
    let id = solana_program::pubkey::Pubkey::new_from_array(program_id.bytes);
    solana_program::pubkey::Pubkey::try_find_program_address(&refs, &id).map(
        |(k, b)| (Address { bytes: k.to_bytes() }, b),
    )
}

/// True when the four bytes at `at` are a valid tag of an optional field
/// of a token account: zero for none, one for some.
pub open spec fn option_tag_ok(d: Seq<u8>, at: int) -> bool {
    (d[at] == 0 || d[at] == 1) && d[at + 1] == 0 && d[at + 2] == 0 && d[at + 3] == 0
}

/// True of the bytes of a token account that the token program accepts as
/// created: 165 bytes, valid tags on its delegate, native and
/// close-authority fields, and a state byte of initialized or frozen.
pub open spec fn token_account_valid(d: Seq<u8>) -> bool {
    &&& d.len() == 165
    &&& option_tag_ok(d, 72)
    &&& (d[108] == 1 || d[108] == 2)
    &&& option_tag_ok(d, 109)
    &&& option_tag_ok(d, 129)
}

/// Relies on spl-token's `Account::unpack`: it accepts exactly the bytes
/// that `token_account_valid` describes, and the owner and the amount of
/// tokens stand at bytes 32..64 and 64..72.
#[verifier::external_body]
pub(crate) fn unpack_token_account(data: &[u8]) -> (r: Option<(Address, u64)>)
    ensures
        match r {
            Some((owner, amount)) => {
                &&& token_account_valid(data@)
                &&& owner.bytes@ == data@.subrange(32, 64)
                &&& amount as nat == le_nat(data@.subrange(64, 72))
            },
            None => !token_account_valid(data@),
        },
{
    let account = <spl_token::state::Account as solana_program::program_pack::Pack>::unpack(data);
    account.ok().map(|a| (Address { bytes: a.owner.to_bytes() }, a.amount))
}

/// What an instruction sees of an account besides its data.
#[derive(Clone, Copy, Debug)]
pub struct AccountRef {
    pub key: Address,
    /// The program that owns the account.
    pub owner: Address,
    pub is_signer: bool,
}

/// Life cycle of a round: it only ever moves forward.
#[derive(Clone, Copy, Debug, PartialEq, Eq, Structural)]
pub enum RoundStatus {
    Uninitialized,
    Ongoing,
    Finished,
}

impl Default for RoundStatus {
    fn default() -> (r: Self)
        ensures
            r == RoundStatus::Uninitialized,
    {
        RoundStatus::Uninitialized
    }
}

/// One matching-funding cycle.
#[derive(Clone, Copy, Debug, PartialEq, Eq)]
pub struct Round {
    pub status: RoundStatus,
    /// Cap parameter of the matching formula.
    pub ratio: u8,
    /// Tokens held for matching.
    pub fund: u64,
    /// Platform fee collected by withdrawals and not yet taken out.
    pub fee: u64,
    pub project_number: u64,
    pub vault: Address,
    pub owner: Address,
    /// Sum of the projects' areas, scaled by `ONE`.
    pub area: U256,
    /// `area` descaled.
    pub total_area: U256,
    /// Largest descaled project area seen.
    pub top_area: U256,
    /// Smallest descaled project area seen, held by `min_area_p`.
    pub min_area: U256,
    pub min_area_p: Address,
}

impl Round {
    pub fn is_initialized(&self) -> (r: bool)
        ensures
            r == (self.status != RoundStatus::Uninitialized),
    {
        self.status != RoundStatus::Uninitialized
    }
}

/// One funding recipient within a round.
#[derive(Clone, Copy, Debug, PartialEq, Eq)]
pub struct Project {
    /// The round the project belongs to; all zero while the record is not
    /// created.
    pub round: Address,
    pub owner: Address,
    /// Set once the project has been paid out.
    pub withdraw: bool,
    /// Tokens voted for the project.
    pub votes: u64,
    /// `area_sqrt` squared and descaled.
    pub area: U256,
    /// Sum over the voters of the root of each one's contribution, in fixed
    /// point.
    pub area_sqrt: U256,
}

/// True of a byte string that is all zero.
pub open spec fn is_zero_bytes(b: Seq<u8>) -> bool {
    forall|i: int| 0 <= i < b.len() ==> b[i] == 0
}

/// True of the all-zero identity.
pub open spec fn is_zero_address(a: Address) -> bool {
    is_zero_bytes(a.bytes@)
}

impl Project {
    pub fn is_initialized(&self) -> (r: bool)
        ensures
            r == !is_zero_address(self.round),
    {
        let z = Address::zero();
        let r = !(self.round == z);
        proof {
            if is_zero_address(self.round) {
                assert(self.round.bytes@ =~= z.bytes@);
            }
        }
        r
    }
}

/// One contributor's votes for one project.
#[derive(Clone, Copy, Debug, PartialEq, Eq)]
pub struct Voter {
    pub is_initialized: bool,
    pub votes: u64,
    /// Fixed-point root of `votes` as of the last vote.
    pub votes_sqrt: U256,
}

impl Voter {
    pub fn is_initialized(&self) -> (r: bool)
        ensures
            r == self.is_initialized,
    {
        self.is_initialized
    }
}

/// Size of a round record in bytes.
pub const ROUND_LEN: usize = 250;

/// Size of a project record in bytes.
pub const PROJECT_LEN: usize = 137;

/// Size of a voter record in bytes.
pub const VOTER_LEN: usize = 41;

/// The byte that stores a round status.
pub open spec fn status_byte(s: RoundStatus) -> u8 {
    match s {
        RoundStatus::Uninitialized => 0,
        RoundStatus::Ongoing => 1,
        RoundStatus::Finished => 2,
    }
}

/// True when `d` is the stored form of round `r`: status, ratio, fund, fee
/// and project count, vault and owner, the four areas and the holder of the
/// smallest, in that order, integers little-endian.
pub open spec fn round_layout(d: Seq<u8>, r: Round) -> bool {
    &&& d.len() == 250
    &&& d[0] == status_byte(r.status)
    &&& d[1] == r.ratio
    &&& r.fund as nat == le_nat(d.subrange(2, 10))
    &&& r.fee as nat == le_nat(d.subrange(10, 18))
    &&& r.project_number as nat == le_nat(d.subrange(18, 26))
    &&& r.vault.bytes@ == d.subrange(26, 58)
    &&& r.owner.bytes@ == d.subrange(58, 90)
    &&& r.area@ == le_nat(d.subrange(90, 122))
    &&& r.total_area@ == le_nat(d.subrange(122, 154))
    &&& r.top_area@ == le_nat(d.subrange(154, 186))
    &&& r.min_area@ == le_nat(d.subrange(186, 218))
    &&& r.min_area_p.bytes@ == d.subrange(218, 250)
}

/// True when `d` is the stored form of project `p`: round, owner, the paid
/// flag as 0 or 1, votes, area and root sum.
pub open spec fn project_layout(d: Seq<u8>, p: Project) -> bool {
    &&& d.len() == 137
    &&& p.round.bytes@ == d.subrange(0, 32)
    &&& p.owner.bytes@ == d.subrange(32, 64)
    &&& d[64] == (if p.withdraw {
        1u8
    } else {
        0u8
    })
    &&& p.votes as nat == le_nat(d.subrange(65, 73))
    &&& p.area@ == le_nat(d.subrange(73, 105))
    &&& p.area_sqrt@ == le_nat(d.subrange(105, 137))
}

/// True when `d` is the stored form of voter `v`: the created flag as 0 or
/// 1, votes and root.
pub open spec fn voter_layout(d: Seq<u8>, v: Voter) -> bool {
    &&& d.len() == 41
    &&& d[0] == (if v.is_initialized {
        1u8
    } else {
        0u8
    })
    &&& v.votes as nat == le_nat(d.subrange(1, 9))
    &&& v.votes_sqrt@ == le_nat(d.subrange(9, 41))
}

impl Round {
    /// Reads a round record, created or not.
    pub fn unpack_from_slice(src: &[u8]) -> (r: Result<Round, QFError>)
        ensures
            src@.len() == ROUND_LEN && src@[0] <= 2 ==> r is Ok && round_layout(src@, r->Ok_0),
            !(src@.len() == ROUND_LEN && src@[0] <= 2) ==> r == Err::<Round, QFError>(
                QFError::InvalidAccountData,
            ),
    {
        if src.len() != ROUND_LEN {
            return Err(QFError::InvalidAccountData);
        }
        let status = if src[0] == 0 {
            RoundStatus::Uninitialized
        } else if src[0] == 1 {
            RoundStatus::Ongoing
        } else if src[0] == 2 {
            RoundStatus::Finished
        } else {
            return Err(QFError::InvalidAccountData);
        };
        Ok(Round {
            status,
            ratio: src[1],
            fund: read_u64(src, 2),
            fee: read_u64(src, 10),
            project_number: read_u64(src, 18),
            vault: Address { bytes: read_bytes32(src, 26) },
            owner: Address { bytes: read_bytes32(src, 58) },
            area: read_u256(src, 90),
            total_area: read_u256(src, 122),
            top_area: read_u256(src, 154),
            min_area: read_u256(src, 186),
            min_area_p: Address { bytes: read_bytes32(src, 218) },
        })
    }

    /// Reads a round record that must have been created.
    pub fn unpack(src: &[u8]) -> (r: Result<Round, QFError>)
        ensures
            src@.len() == ROUND_LEN && 1 <= src@[0] <= 2 ==> r is Ok && round_layout(src@, r->Ok_0),
            src@.len() == ROUND_LEN && src@[0] == 0 ==> r == Err::<Round, QFError>(
                QFError::UninitializedAccount,
            ),
            !(src@.len() == ROUND_LEN && src@[0] <= 2) ==> r == Err::<Round, QFError>(
                QFError::InvalidAccountData,
            ),
    {
        let round = Self::unpack_from_slice(src)?;
        if !round.is_initialized() {
            return Err(QFError::UninitializedAccount);
        }
        Ok(round)
    }

    /// The stored form of the round.
    pub fn pack_into_slice(&self) -> (r: Vec<u8>)
        ensures
            round_layout(r@, *self),
    {
        let mut out: Vec<u8> = Vec::new();
        let status: u8 = match self.status {
            RoundStatus::Uninitialized => 0,
            RoundStatus::Ongoing => 1,
            RoundStatus::Finished => 2,
        };
        out.push(status);
        out.push(self.ratio);
        let fund = u64_bytes(self.fund);
        let fee = u64_bytes(self.fee);
        let count = u64_bytes(self.project_number);
        let area = u256_bytes(&self.area);
        let total = u256_bytes(&self.total_area);
        let top = u256_bytes(&self.top_area);
        let min = u256_bytes(&self.min_area);
        put(&mut out, fund.as_slice());
        put(&mut out, fee.as_slice());
        put(&mut out, count.as_slice());
        put(&mut out, self.vault.bytes.as_slice());
        put(&mut out, self.owner.bytes.as_slice());
        put(&mut out, area.as_slice());
        put(&mut out, total.as_slice());
        put(&mut out, top.as_slice());
        put(&mut out, min.as_slice());
        put(&mut out, self.min_area_p.bytes.as_slice());
        let ghost d = out@;
        assert(d.subrange(2, 10) =~= fund@);
        assert(d.subrange(10, 18) =~= fee@);
        assert(d.subrange(18, 26) =~= count@);
        assert(d.subrange(26, 58) =~= self.vault.bytes@);
        assert(d.subrange(58, 90) =~= self.owner.bytes@);
        assert(d.subrange(90, 122) =~= area@);
        assert(d.subrange(122, 154) =~= total@);
        assert(d.subrange(154, 186) =~= top@);
        assert(d.subrange(186, 218) =~= min@);
        assert(d.subrange(218, 250) =~= self.min_area_p.bytes@);
        out
    }
}

impl Project {
    /// Reads a project record, created or not.
    pub fn unpack_from_slice(src: &[u8]) -> (r: Result<Project, QFError>)
        ensures
            src@.len() == PROJECT_LEN && src@[64] <= 1 ==> r is Ok && project_layout(
                src@,
                r->Ok_0,
            ),
            !(src@.len() == PROJECT_LEN && src@[64] <= 1) ==> r == Err::<Project, QFError>(
                QFError::InvalidAccountData,
            ),
    {
        if src.len() != PROJECT_LEN {
            return Err(QFError::InvalidAccountData);
        }
        let withdraw = if src[64] == 0 {
            false
        } else if src[64] == 1 {
            true
        } else {
            return Err(QFError::InvalidAccountData);
        };
        Ok(Project {
            round: Address { bytes: read_bytes32(src, 0) },
            owner: Address { bytes: read_bytes32(src, 32) },
            withdraw,
            votes: read_u64(src, 65),
            area: read_u256(src, 73),
            area_sqrt: read_u256(src, 105),
        })
    }

    /// Reads a project record that must have been created.
    pub fn unpack(src: &[u8]) -> (r: Result<Project, QFError>)
        ensures
            src@.len() == PROJECT_LEN && src@[64] <= 1 && !is_zero_bytes(src@.subrange(0, 32))
                ==> r is Ok && project_layout(src@, r->Ok_0),
            src@.len() == PROJECT_LEN && src@[64] <= 1 && is_zero_bytes(src@.subrange(0, 32))
                ==> r == Err::<Project, QFError>(QFError::UninitializedAccount),
            !(src@.len() == PROJECT_LEN && src@[64] <= 1) ==> r == Err::<Project, QFError>(
                QFError::InvalidAccountData,
            ),
    {
        let project = Self::unpack_from_slice(src)?;
        if !project.is_initialized() {
            return Err(QFError::UninitializedAccount);
        }
        Ok(project)
    }

    /// The stored form of the project.
    pub fn pack_into_slice(&self) -> (r: Vec<u8>)
        ensures
            project_layout(r@, *self),
    {
        let mut out: Vec<u8> = Vec::new();
        put(&mut out, self.round.bytes.as_slice());
        put(&mut out, self.owner.bytes.as_slice());
        out.push(if self.withdraw {
            1u8
        } else {
            0u8
        });
        let votes = u64_bytes(self.votes);
        let area = u256_bytes(&self.area);
        let root = u256_bytes(&self.area_sqrt);
        put(&mut out, votes.as_slice());
        put(&mut out, area.as_slice());
        put(&mut out, root.as_slice());
        let ghost d = out@;
        assert(d.subrange(0, 32) =~= self.round.bytes@);
        assert(d.subrange(32, 64) =~= self.owner.bytes@);
        assert(d.subrange(65, 73) =~= votes@);
        assert(d.subrange(73, 105) =~= area@);
        assert(d.subrange(105, 137) =~= root@);
        out
    }
}

impl Voter {
    /// Reads a voter record, created or not.
    pub fn unpack_from_slice(src: &[u8]) -> (r: Result<Voter, QFError>)
        ensures
            src@.len() == VOTER_LEN && src@[0] <= 1 ==> r is Ok && voter_layout(src@, r->Ok_0),
            !(src@.len() == VOTER_LEN && src@[0] <= 1) ==> r == Err::<Voter, QFError>(
                QFError::InvalidAccountData,
            ),
    {
        if src.len() != VOTER_LEN {
            return Err(QFError::InvalidAccountData);
        }
        let is_initialized = if src[0] == 0 {
            false
        } else if src[0] == 1 {
            true
        } else {
            return Err(QFError::InvalidAccountData);
        };
        Ok(Voter { is_initialized, votes: read_u64(src, 1), votes_sqrt: read_u256(src, 9) })
    }

    /// Reads a voter record that must have been created.
    pub fn unpack(src: &[u8]) -> (r: Result<Voter, QFError>)
        ensures
            src@.len() == VOTER_LEN && src@[0] == 1 ==> r is Ok && voter_layout(src@, r->Ok_0),
            src@.len() == VOTER_LEN && src@[0] == 0 ==> r == Err::<Voter, QFError>(
                QFError::UninitializedAccount,
            ),
            !(src@.len() == VOTER_LEN && src@[0] <= 1) ==> r == Err::<Voter, QFError>(
                QFError::InvalidAccountData,
            ),
    {
        let voter = Self::unpack_from_slice(src)?;
        if !voter.is_initialized {
            return Err(QFError::UninitializedAccount);
        }
        Ok(voter)
    }

    /// The stored form of the voter.
    pub fn pack_into_slice(&self) -> (r: Vec<u8>)
        ensures
            voter_layout(r@, *self),
    {
        let mut out: Vec<u8> = Vec::new();
        out.push(if self.is_initialized {
            1u8
        } else {
            0u8
        });
        let votes = u64_bytes(self.votes);
        let root = u256_bytes(&self.votes_sqrt);
        put(&mut out, votes.as_slice());
        put(&mut out, root.as_slice());
        let ghost d = out@;
        assert(d.subrange(1, 9) =~= votes@);
        assert(d.subrange(9, 41) =~= root@);
        out
    }
}

} // verus!
