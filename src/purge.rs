//! Emptying one column of the store in bounded batches: each round scans the
//! column from its start, queues the deletion of the first keys it finds in
//! one transaction, and commits it; a scan that finds nothing ends the work.
use vstd::prelude::*;

verus! {

/// Largest number of deletions queued in one transaction.
pub const BATCH_SIZE: usize = 2500;

/// Declares kvdb's transaction type to the verifier: an opaque list of
/// operations.
#[verifier::external_type_specification]
#[verifier::external_body]
pub struct ExDBTransaction(kvdb::DBTransaction);

/// The deletions a transaction holds, as (column, key), in the order queued.
pub uninterp spec fn queued_deletes(tx: kvdb::DBTransaction) -> Seq<(u32, Seq<u8>)>;

/// Number of operations of any kind (put, delete, delete by prefix) that a
/// transaction holds.
pub uninterp spec fn op_count(tx: kvdb::DBTransaction) -> nat;

/// Relies on kvdb's `DBTransaction::new`: a transaction with no operation.
pub assume_specification[ kvdb::DBTransaction::new ]() -> (r: kvdb::DBTransaction)
    ensures
        queued_deletes(r) == Seq::<(u32, Seq<u8>)>::empty(),
        op_count(r) == 0,
;

/// Relies on kvdb's `DBTransaction::delete`: it appends one deletion of `key`
/// in column `col`.
pub assume_specification[ kvdb::DBTransaction::delete ](
    tx: &mut kvdb::DBTransaction,
    col: u32,
    key: &[u8],
)
    ensures
        queued_deletes(*final(tx)) == queued_deletes(*old(tx)).push((col, key@)),
        op_count(*final(tx)) == op_count(*old(tx)) + 1,
;

/// Number of keys that one round takes from a column of `n` keys.
pub open spec fn batch_len(n: nat) -> nat {
    if n < BATCH_SIZE {
        n
    } else {
        BATCH_SIZE as nat
    }
}

/// The deletions that one round queues for the scanned `keys` of `column`:
/// the first `BATCH_SIZE` of them, in scan order.
pub open spec fn batch_of(column: u32, keys: Seq<Vec<u8>>) -> Seq<(u32, Seq<u8>)> {
    keys.take(batch_len(keys.len()) as int).map_values(|k: Vec<u8>| (column, k@))
}

/// Builds the transaction of one round from the keys that a scan of `column`
/// found, in scan order. `None` when the scan found nothing: the column is
/// empty and the work is done. The transaction holds those deletions and no
/// other operation: between one and `BATCH_SIZE` of them, all in `column`.
pub fn delete_batch(column: u32, keys: &[Vec<u8>]) -> (r: Option<kvdb::DBTransaction>)
    ensures
        r is None <==> keys@.len() == 0,
        r matches Some(tx) ==> queued_deletes(tx) == batch_of(column, keys@),
        r matches Some(tx) ==> op_count(tx) == queued_deletes(tx).len(),
        r matches Some(tx) ==> 1 <= op_count(tx) <= BATCH_SIZE,
        r matches Some(tx) ==> forall|j: int|
            0 <= j < queued_deletes(tx).len() ==> (#[trigger] queued_deletes(tx)[j]).0 == column,
{
    if keys.len() == 0 {
        return None;
    }
    let limit: usize = if keys.len() < BATCH_SIZE {
        keys.len()
    } else {
        BATCH_SIZE
    };
    let mut tx = kvdb::DBTransaction::new();
    let mut i: usize = 0;
    while i < limit
        invariant
            limit == batch_len(keys@.len()),
            limit <= keys@.len(),
            i <= limit,
            queued_deletes(tx) == batch_of(column, keys@.take(i as int)),
            op_count(tx) == i,
        decreases limit - i,
    {
        proof {
            assert(keys@.take(i as int).take(i as int) =~= keys@.take(i as int));
            assert(keys@.take(i + 1).take(i + 1) =~= keys@.take(i as int).take(i as int).push(keys@[i as int]));
        }
        tx.delete(column, keys[i].as_slice());
        i = i + 1;
        proof {
            assert(batch_of(column, keys@.take(i as int)) =~= batch_of(column, keys@.take(i - 1)).push((column, keys@[i - 1]@)));
        }
    }
    assert(keys@.take(limit as int).take(limit as int) =~= keys@.take(limit as int));
    Some(tx)
}

/// Keys left after one round on a column of `n` keys.
pub open spec fn after_round(n: nat) -> nat {
    (n - batch_len(n)) as nat
}

/// Number of rounds that commit a transaction while a column of `n` keys is
/// emptied; the scan after the last of them finds nothing.
pub open spec fn rounds(n: nat) -> nat
    decreases n,
{
    if n == 0 {
        0
    } else {
        1 + rounds(after_round(n))
    }
}

/// Keys left in a column of `n` keys after `k` committed rounds.
pub open spec fn after_rounds(n: nat, k: nat) -> nat
    decreases k,
{
    if k == 0 {
        n
    } else {
        after_rounds(after_round(n), (k - 1) as nat)
    }
}

/// One round on a column: when the scan returns the first keys of the column
/// (distinct, at most `BATCH_SIZE`, all of them when the column is smaller),
/// committing their deletion leaves `after_round` keys, and the scan is empty
/// exactly when the column is. What is left is a subset of what was there:
/// every key that was not scanned stays, and no key comes back.
pub proof fn lemma_round(column: Set<Seq<u8>>, scanned: Seq<Seq<u8>>)
    requires
        column.finite(),
        scanned.no_duplicates(),
        scanned.to_set().subset_of(column),
        scanned.len() == batch_len(column.len()),
    ensures
        column.difference(scanned.to_set()).len() == after_round(column.len()),
        column.difference(scanned.to_set()).subset_of(column),
        forall|k: Seq<u8>| column.contains(k) && !scanned.contains(k) ==> #[trigger] column.difference(
            scanned.to_set(),
        ).contains(k),
        scanned.len() == 0 <==> column.len() == 0,
{
    scanned.unique_seq_to_set();
    let taken = scanned.to_set();
    assert(column.intersect(taken) =~= taken);
    vstd::set_lib::lemma_set_difference_len(column, taken);
}

/// Emptying a column of `n` keys commits `ceil(n / BATCH_SIZE)` transactions
/// (none for an empty column): each of the first `rounds(n)` scans finds
/// keys, and after them the column is empty.
pub proof fn lemma_drain_commits(n: nat)
    ensures
        rounds(n) == (n + BATCH_SIZE - 1) / (BATCH_SIZE as int),
        after_rounds(n, rounds(n)) == 0,
        forall|k: nat| k < rounds(n) ==> #[trigger] after_rounds(n, k) > 0,
    decreases n,
{
    if n > 0 {
        lemma_drain_commits(after_round(n));
        if n > BATCH_SIZE {
            assert((n + 2499) / 2500 == (n - 2500 + 2499) / 2500 + 1) by (nonlinear_arith)
                requires
                    n > 2500,
            ;
        }
    }
    assert forall|k: nat| k < rounds(n) implies #[trigger] after_rounds(n, k) > 0 by {
        lemma_interrupted_drain(n, k);
    }
    lemma_interrupted_drain(n, rounds(n));
}

/// A drain interrupted after `k` committed rounds leaves at most
/// `n - k * BATCH_SIZE` of the `n` keys (none once that is not positive), and
/// a drain started again on what is left commits the rounds that were missing.
pub proof fn lemma_interrupted_drain(n: nat, k: nat)
    ensures
        after_rounds(n, k) == (if k * BATCH_SIZE >= n {
            0
        } else {
            (n - k * BATCH_SIZE) as nat
        }),
        k <= rounds(n) ==> rounds(after_rounds(n, k)) == rounds(n) - k,
    decreases k,
{
    if k > 0 {
        lemma_interrupted_drain(after_round(n), (k - 1) as nat);
        assert((k - 1) * 2500 == k * 2500 - 2500) by (nonlinear_arith);
        if n == 0 {
            assert(after_rounds(0, (k - 1) as nat) == 0);
        }
    }
}

} // verus!
