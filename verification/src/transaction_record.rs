//! Operation records and the classification of their textual kind.
//!
//! A record names an action — deposit, withdrawal, dispute, resolve or
//! chargeback — a client and a transaction identifier. The kind field of the
//! input encoding is matched case-insensitively (ASCII); an amount is
//! required, and must be non-negative, for deposits and withdrawals, and is
//! ignored otherwise.

use vstd::prelude::*;

use crate::{Amount, ClientId, TransactionId};

verus! {

/// The action an operation record asks for. Deposits and withdrawals carry
/// an amount; the referential kinds recover it from the historical
/// transaction they refer to.
#[derive(Debug, Clone, Copy, PartialEq, Eq, Structural)]
pub enum TransactionRecordType {
    Deposit { amount: Amount },
    Withdrawal { amount: Amount },
    Dispute,
    Resolve,
    Chargeback,
}

impl TransactionRecordType {
    /// Amounts carried by a record are non-negative.
    pub open spec fn wf(self) -> bool {
        match self {
            TransactionRecordType::Deposit { amount } => 0 <= amount,
            TransactionRecordType::Withdrawal { amount } => 0 <= amount,
            _ => true,
        }
    }
}

/// One operation record of the input stream.
#[derive(Debug, Clone, Copy, PartialEq, Eq, Structural)]
pub struct TransactionRecord {
    pub tx_type: TransactionRecordType,
    pub client: ClientId,
    pub tx: TransactionId,
}

impl TransactionRecord {
    /// A record is well-formed when any amount it carries is non-negative.
    pub open spec fn wf(self) -> bool {
        self.tx_type.wf()
    }
}

/// ASCII lower-casing of one byte.
pub open spec fn ascii_lower(b: u8) -> u8 {
    if 'A' as u8 <= b <= 'Z' as u8 {
        (b + 32) as u8
    } else {
        b
    }
}

/// ASCII lower-casing of a byte string.
pub open spec fn lower_bytes(s: Seq<u8>) -> Seq<u8> {
    s.map_values(|b: u8| ascii_lower(b))
}

/// The five kind names of the input encoding.
pub open spec fn deposit_name() -> Seq<u8> {
    seq!['d' as u8, 'e' as u8, 'p' as u8, 'o' as u8, 's' as u8, 'i' as u8, 't' as u8]
}

pub open spec fn withdrawal_name() -> Seq<u8> {
    seq![
        'w' as u8,
        'i' as u8,
        't' as u8,
        'h' as u8,
        'd' as u8,
        'r' as u8,
        'a' as u8,
        'w' as u8,
        'a' as u8,
        'l' as u8,
    ]
}

pub open spec fn dispute_name() -> Seq<u8> {
    seq!['d' as u8, 'i' as u8, 's' as u8, 'p' as u8, 'u' as u8, 't' as u8, 'e' as u8]
}

pub open spec fn resolve_name() -> Seq<u8> {
    seq!['r' as u8, 'e' as u8, 's' as u8, 'o' as u8, 'l' as u8, 'v' as u8, 'e' as u8]
}

pub open spec fn chargeback_name() -> Seq<u8> {
    seq![
        'c' as u8,
        'h' as u8,
        'a' as u8,
        'r' as u8,
        'g' as u8,
        'e' as u8,
        'b' as u8,
        'a' as u8,
        'c' as u8,
        'k' as u8,
    ]
}

/// What a kind field and an optional amount classify to: the record kind, or
/// nothing where the kind is unknown, a required amount is missing, or an
/// amount is negative.
pub open spec fn spec_parse_record_kind(kind: Seq<u8>, amount: Option<Amount>) -> Option<
    TransactionRecordType,
> {
    let k = lower_bytes(kind);
    if k == deposit_name() {
        match amount {
            Some(a) => if 0 <= a {
                Some(TransactionRecordType::Deposit { amount: a })
            } else {
                None
            },
            None => None,
        }
    } else if k == withdrawal_name() {
        match amount {
            Some(a) => if 0 <= a {
                Some(TransactionRecordType::Withdrawal { amount: a })
            } else {
                None
            },
            None => None,
        }
    } else if k == dispute_name() {
        Some(TransactionRecordType::Dispute)
    } else if k == resolve_name() {
        Some(TransactionRecordType::Resolve)
    } else if k == chargeback_name() {
        Some(TransactionRecordType::Chargeback)
    } else {
        None
    }
}

/// ASCII lower-casing of one byte.
fn lower_byte(b: u8) -> (r: u8)
    ensures
        r == ascii_lower(b),
{
    if b >= 'A' as u8 && b <= 'Z' as u8 {
        b + 32
    } else {
        b
    }
}

/// Whether the kind field, lower-cased, spells the given name.
fn matches_name(kind: &[u8], name: &[u8]) -> (r: bool)
    ensures
        r == (lower_bytes(kind@) == name@),
{
    if kind.len() != name.len() {
        return false;
    }
    let mut i: usize = 0;
    while i < kind.len()
        invariant
            i <= kind@.len(),
            kind@.len() == name@.len(),
            forall|j: int| 0 <= j < i ==> ascii_lower(kind@[j]) == name@[j],
        decreases kind@.len() - i,
    {
        if lower_byte(kind[i]) != name[i] {
            proof {
                assert(lower_bytes(kind@)[i as int] != name@[i as int]);
            }
            return false;
        }
        i += 1;
    }
    proof {
        assert(lower_bytes(kind@) =~= name@);
    }
    true
}

/// Classifies a raw kind field and optional amount into a record kind:
/// the five names are matched case-insensitively; deposits and withdrawals
/// demand a non-negative amount; the referential kinds ignore the amount.
pub fn parse_record_kind(kind: &[u8], amount: Option<Amount>) -> (r: Option<TransactionRecordType>)
    ensures
        r == spec_parse_record_kind(kind@, amount),
        r matches Some(t) ==> t.wf(),
{
    let deposit: [u8; 7] = ['d' as u8, 'e' as u8, 'p' as u8, 'o' as u8, 's' as u8, 'i' as u8, 't' as u8];
    let withdrawal: [u8; 10] = [
        'w' as u8,
        'i' as u8,
        't' as u8,
        'h' as u8,
        'd' as u8,
        'r' as u8,
        'a' as u8,
        'w' as u8,
        'a' as u8,
        'l' as u8,
    ];
    let dispute: [u8; 7] = ['d' as u8, 'i' as u8, 's' as u8, 'p' as u8, 'u' as u8, 't' as u8, 'e' as u8];
    let resolve: [u8; 7] = ['r' as u8, 'e' as u8, 's' as u8, 'o' as u8, 'l' as u8, 'v' as u8, 'e' as u8];
    let chargeback: [u8; 10] = [
        'c' as u8,
        'h' as u8,
        'a' as u8,
        'r' as u8,
        'g' as u8,
        'e' as u8,
        'b' as u8,
        'a' as u8,
        'c' as u8,
        'k' as u8,
    ];
    proof {
        assert(deposit@ =~= deposit_name());
        assert(withdrawal@ =~= withdrawal_name());
        assert(dispute@ =~= dispute_name());
        assert(resolve@ =~= resolve_name());
        assert(chargeback@ =~= chargeback_name());
    }
    if matches_name(kind, deposit.as_slice()) {
        match amount {
            Some(a) => if a >= 0 {
                Some(TransactionRecordType::Deposit { amount: a })
            } else {
                None
            },
            None => None,
        }
    } else if matches_name(kind, withdrawal.as_slice()) {
        match amount {
            Some(a) => if a >= 0 {
                Some(TransactionRecordType::Withdrawal { amount: a })
            } else {
                None
            },
            None => None,
        }
    } else if matches_name(kind, dispute.as_slice()) {
        Some(TransactionRecordType::Dispute)
    } else if matches_name(kind, resolve.as_slice()) {
        Some(TransactionRecordType::Resolve)
    } else if matches_name(kind, chargeback.as_slice()) {
        Some(TransactionRecordType::Chargeback)
    } else {
        None
    }
}

} // verus!
