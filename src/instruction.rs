//! The instruction wire format: one tag byte, then the variant's fields,
//! integers little-endian.

use crate::bytes::{le_nat, put, read_u256, read_u64, u256_bytes, u64_bytes};
use crate::error::QFError;
use crate::wide::U256;
use vstd::prelude::*;

verus! {

/// The nine operations of the program.
#[derive(Clone, Copy, Debug)]
pub enum QFInstruction {
    StartRound { ratio: u8 },
    Donate { amount: u64, decimals: u8 },
    RegisterProject,
    InitVoter,
    Vote { amount: u64, decimals: u8 },
    Withdraw,
    EndRound,
    WithdrawFee,
    BanProject { ban_amount: U256 },
}

/// True when `d` begins with the encoding of `ins`.
pub open spec fn instruction_layout(d: Seq<u8>, ins: QFInstruction) -> bool {
    match ins {
        QFInstruction::StartRound { ratio } => d.len() >= 2 && d[0] == 0 && d[1] == ratio,
        QFInstruction::Donate { amount, decimals } => d.len() >= 10 && d[0] == 1 && le_nat(
            d.subrange(1, 9),
        ) == amount as nat && d[9] == decimals,
        QFInstruction::RegisterProject => d.len() >= 1 && d[0] == 2,
        QFInstruction::InitVoter => d.len() >= 1 && d[0] == 3,
        QFInstruction::Vote { amount, decimals } => d.len() >= 10 && d[0] == 4 && le_nat(
            d.subrange(1, 9),
        ) == amount as nat && d[9] == decimals,
        QFInstruction::Withdraw => d.len() >= 1 && d[0] == 5,
        QFInstruction::EndRound => d.len() >= 1 && d[0] == 6,
        QFInstruction::WithdrawFee => d.len() >= 1 && d[0] == 7,
        QFInstruction::BanProject { ban_amount } => d.len() >= 33 && d[0] == 8 && ban_amount@
            == le_nat(d.subrange(1, 33)),
    }
}

/// The number of bytes that encode `ins`.
pub open spec fn encoded_len(ins: QFInstruction) -> nat {
    match ins {
        QFInstruction::StartRound { .. } => 2,
        QFInstruction::Donate { .. } => 10,
        QFInstruction::Vote { .. } => 10,
        QFInstruction::BanProject { .. } => 33,
        _ => 1,
    }
}

/// True when `d` starts with a known tag followed by enough bytes for its
/// fields.
pub open spec fn decodable(d: Seq<u8>) -> bool {
    d.len() >= 1 && (d[0] <= 8) && d.len() >= (if d[0] == 0 {
        2int
    } else if d[0] == 1 || d[0] == 4 {
        10int
    } else if d[0] == 8 {
        33int
    } else {
        1int
    })
}

impl QFInstruction {
    /// Decodes an instruction; trailing bytes are ignored.
    pub fn unpack(input: &[u8]) -> (r: Result<QFInstruction, QFError>)
        ensures
            match r {
                Ok(ins) => decodable(input@) && instruction_layout(input@, ins),
                Err(e) => e == QFError::InvalidInstructionData && !decodable(input@),
            },
    {
        let n = input.len();
        if n < 1 {
            return Err(QFError::InvalidInstructionData);
        }
        let tag = input[0];
        if tag == 0 {
            if n < 2 {
                return Err(QFError::InvalidInstructionData);
            }
            Ok(QFInstruction::StartRound { ratio: input[1] })
        } else if tag == 1 || tag == 4 {
            if n < 10 {
                return Err(QFError::InvalidInstructionData);
            }
            let amount = read_u64(input, 1);
            let decimals = input[9];
            if tag == 1 {
                Ok(QFInstruction::Donate { amount, decimals })
            } else {
                Ok(QFInstruction::Vote { amount, decimals })
            }
        } else if tag == 2 {
            Ok(QFInstruction::RegisterProject)
        } else if tag == 3 {
            Ok(QFInstruction::InitVoter)
        } else if tag == 5 {
            Ok(QFInstruction::Withdraw)
        } else if tag == 6 {
            Ok(QFInstruction::EndRound)
        } else if tag == 7 {
            Ok(QFInstruction::WithdrawFee)
        } else if tag == 8 {
            if n < 33 {
                return Err(QFError::InvalidInstructionData);
            }
            Ok(QFInstruction::BanProject { ban_amount: read_u256(input, 1) })
        } else {
            Err(QFError::InvalidInstructionData)
        }
    }

    /// Encodes the instruction.
    pub fn pack(&self) -> (r: Vec<u8>)
        ensures
            r@.len() == encoded_len(*self),
            instruction_layout(r@, *self),
    {
        let mut buf: Vec<u8> = Vec::new();
        match self {
            QFInstruction::StartRound { ratio } => {
                buf.push(0);
                buf.push(*ratio);
            },
            QFInstruction::Donate { amount, decimals } => {
                buf.push(1);
                let a = u64_bytes(*amount);
                put(&mut buf, a.as_slice());
                buf.push(*decimals);
                assert(buf@.subrange(1, 9) =~= a@);
            },
            QFInstruction::RegisterProject => buf.push(2),
            QFInstruction::InitVoter => buf.push(3),
            QFInstruction::Vote { amount, decimals } => {
                buf.push(4);
                let a = u64_bytes(*amount);
                put(&mut buf, a.as_slice());
                buf.push(*decimals);
                assert(buf@.subrange(1, 9) =~= a@);
            },
            QFInstruction::Withdraw => buf.push(5),
            QFInstruction::EndRound => buf.push(6),
            QFInstruction::WithdrawFee => buf.push(7),
            QFInstruction::BanProject { ban_amount } => {
                buf.push(8);
                let b = u256_bytes(ban_amount);
                put(&mut buf, b.as_slice());
                assert(buf@.subrange(1, 33) =~= b@);
            },
        }
        buf
    }
}

} // verus!
