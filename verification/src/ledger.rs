use vstd::prelude::*;

verus! {

/// The two kinds of recorded transaction, stored by their names `buy` and
/// `sell`.
#[derive(Debug, Clone, Copy, PartialEq, Eq)]
pub enum TransactionKind {
    Buy,
    Sell,
}

/// The name under which a kind of transaction is stored.
pub open spec fn kind_name(kind: TransactionKind) -> Seq<char> {
    match kind {
        TransactionKind::Buy => "buy"@,
        TransactionKind::Sell => "sell"@,
    }
}

impl TransactionKind {
    /// The name under which this kind is stored.
    pub fn as_str(&self) -> (name: &'static str)
        ensures
            name@ == kind_name(*self),
    {
        match self {
            TransactionKind::Buy => "buy",
            TransactionKind::Sell => "sell",
        }
    }
}

/// How a recorded transaction enters the profit and loss of a position.
///
/// A realized transaction (a sale) is valued at its own price against the
/// average cost of the position; any other is valued at the market price
/// against its own price. Only purchases add to the cost of the position.
#[derive(Debug, Clone, Copy)]
pub struct TransactionRole {
    pub realized: bool,
    pub counts_toward_cost: bool,
}

/// The role of a transaction stored under the type name `name`: realized
/// exactly when the name is `sell`, counted toward the cost exactly when the
/// name is `buy`.
pub open spec fn role_of(name: Seq<char>) -> TransactionRole {
    TransactionRole {
        realized: name == kind_name(TransactionKind::Sell),
        counts_toward_cost: name == kind_name(TransactionKind::Buy),
    }
}

/// The role of a transaction stored under the type name `transaction_type`.
pub fn transaction_role(transaction_type: &str) -> (role: TransactionRole)
    ensures
        role == role_of(transaction_type@),
        role.realized == (transaction_type@ == "sell"@),
        role.counts_toward_cost == (transaction_type@ == "buy"@),
{
    let name = transaction_type.to_owned();
    let sell = String::from_str("sell");
    let buy = String::from_str("buy");
    TransactionRole { realized: name == sell, counts_toward_cost: name == buy }
}

/// A transaction read back under the name its kind was stored with has the
/// role of that kind: a sale is realized and adds no cost, a purchase is
/// valued against the market and adds its cost.
pub proof fn lemma_stored_kind_role(kind: TransactionKind)
    ensures
        role_of(kind_name(kind)) == (match kind {
            TransactionKind::Sell => TransactionRole { realized: true, counts_toward_cost: false },
            TransactionKind::Buy => TransactionRole { realized: false, counts_toward_cost: true },
        }),
{
    reveal_strlit("sell");
    reveal_strlit("buy");
    assert(kind_name(TransactionKind::Sell).len() != kind_name(TransactionKind::Buy).len());
}

} // verus!
