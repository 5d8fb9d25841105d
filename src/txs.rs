use vstd::prelude::*;

verus! {

/// One operation of a transaction batch: change `field` of the record `id`
/// by the signed `amount`.
#[derive(Debug, Clone, PartialEq)]
pub struct Tx {
    pub id: String,
    pub field: String,
    pub amount: i64,
}

/// An update statement of a batch with the value bound to its `$amount`
/// parameter.
#[derive(Debug, Clone, PartialEq)]
pub struct BoundStatement {
    pub text: String,
    pub amount: i64,
}

/// The assignment operator for an amount: `+=` when it is zero or more,
/// `-=` when it is negative. The bound value is the signed amount either way.
pub open spec fn operator(amount: int) -> Seq<char> {
    if amount >= 0 {
        "+="@
    } else {
        "-="@
    }
}

/// `UPDATE <id> SET <field> <op> $amount`.
pub open spec fn statement_text(id: Seq<char>, field: Seq<char>, amount: int) -> Seq<char> {
    "UPDATE "@ + id + " SET "@ + field + " "@ + operator(amount) + " $amount"@
}

/// The statement that carries out one operation.
pub fn update_statement(tx: &Tx) -> (r: BoundStatement)
    ensures
        r.text@ == statement_text(tx.id@, tx.field@, tx.amount as int),
        r.amount == tx.amount,
{
    let mut s = String::from_str("UPDATE ");
    s.append(tx.id.as_str());
    s.append(" SET ");
    s.append(tx.field.as_str());
    s.append(" ");
    if tx.amount >= 0 {
        s.append("+=");
    } else {
        s.append("-=");
    }
    s.append(" $amount");
    BoundStatement { text: s, amount: tx.amount }
}

/// The update statements of a batch, one for each operation, in the order of
/// the operations. The store runs them between a begin and a commit.
pub fn plan_batch(txs: &Vec<Tx>) -> (r: Vec<BoundStatement>)
    ensures
        r@.len() == txs@.len(),
        forall|i: int|
            0 <= i < txs@.len() ==> (#[trigger] r@[i]).text@ == statement_text(
                txs@[i].id@,
                txs@[i].field@,
                txs@[i].amount as int,
            ) && r@[i].amount == txs@[i].amount,
{
    let mut out: Vec<BoundStatement> = Vec::new();
    let mut i: usize = 0;
    while i < txs.len()
        invariant
            i <= txs@.len(),
            out@.len() == i,
            forall|j: int|
                0 <= j < i ==> (#[trigger] out@[j]).text@ == statement_text(
                    txs@[j].id@,
                    txs@[j].field@,
                    txs@[j].amount as int,
                ) && out@[j].amount == txs@[j].amount,
        decreases txs@.len() - i,
    {
        out.push(update_statement(&txs[i]));
        i = i + 1;
    }
    out
}

} // verus!
