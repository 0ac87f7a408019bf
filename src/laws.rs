use vstd::prelude::*;
use crate::assemble::{
    balance_row_m, dates_m, header_m, item_row_m, items_m, parties_m, trx_m, trx_row_m,
};
use crate::model::Invoice;
use crate::style::StyleRegistry;

verus! {

/// An absent optional text field renders as "-": the paid date after its
/// label, and the address, phone and email of both parties on lines of their own.
pub proof fn lemma_absent_fields_render_dash(inv: Invoice, st: StyleRegistry)
    ensures
        inv.paiddate is None ==> dates_m(inv, st)[2].content == "Paid Date: "@ + "-"@,
        inv.invto.address is None ==> parties_m(inv, st).rows[0][0].lines[2].content == "-"@,
        inv.invto.phone is None ==> parties_m(inv, st).rows[0][0].lines[3].content == "-"@,
        inv.invto.email is None ==> parties_m(inv, st).rows[0][0].lines[4].content == "-"@,
        inv.invfrom.address is None ==> parties_m(inv, st).rows[0][1].lines[2].content == "-"@,
        inv.invfrom.phone is None ==> parties_m(inv, st).rows[0][1].lines[3].content == "-"@,
        inv.invfrom.email is None ==> parties_m(inv, st).rows[0][1].lines[4].content == "-"@,
{
}

/// Item and transaction rows stand in the stored order: the row after the
/// header for the i-th stored record is the rendering of that record.
pub proof fn lemma_rows_follow_stored_order(inv: Invoice, st: StyleRegistry)
    ensures
        forall|i: int|
            0 <= i < inv.items@.len() ==> #[trigger] items_m(inv, st).rows[1 + i] == item_row_m(
                inv.items@[i],
                st,
            ),
        forall|i: int|
            0 <= i < inv.transactions.items@.len() ==> #[trigger] trx_m(inv, st).rows[1 + i]
                == trx_row_m(inv.transactions.items@[i], st),
{
    assert forall|i: int| 0 <= i < inv.items@.len() implies #[trigger] items_m(inv, st).rows[1
        + i] == item_row_m(inv.items@[i], st) by {}
    assert forall|i: int| 0 <= i < inv.transactions.items@.len() implies #[trigger] trx_m(
        inv,
        st,
    ).rows[1 + i] == trx_row_m(inv.transactions.items@[i], st) by {}
}

/// Reordering the stored items reorders the item rows identically: when the
/// i-th item of `b` is the `perm[i]`-th item of `a`, so are the rows.
pub proof fn lemma_item_reorder(a: Invoice, b: Invoice, perm: Seq<int>, st: StyleRegistry)
    requires
        perm.len() == b.items@.len(),
        forall|i: int| 0 <= i < perm.len() ==> 0 <= #[trigger] perm[i] < a.items@.len(),
        forall|i: int| 0 <= i < perm.len() ==> #[trigger] b.items@[i] == a.items@[perm[i]],
    ensures
        forall|i: int|
            0 <= i < perm.len() ==> #[trigger] items_m(b, st).rows[1 + i] == items_m(a, st).rows[1
                + perm[i]],
{
    lemma_rows_follow_stored_order(a, st);
    lemma_rows_follow_stored_order(b, st);
    assert forall|i: int| 0 <= i < perm.len() implies #[trigger] items_m(b, st).rows[1 + i]
        == items_m(a, st).rows[1 + perm[i]] by {
        assert(b.items@[i] == a.items@[perm[i]]);
        assert(items_m(a, st).rows[1 + perm[i]] == item_row_m(a.items@[perm[i]], st));
    }
}

/// Reordering the stored transactions reorders the transaction rows identically.
pub proof fn lemma_transaction_reorder(a: Invoice, b: Invoice, perm: Seq<int>, st: StyleRegistry)
    requires
        perm.len() == b.transactions.items@.len(),
        forall|i: int| 0 <= i < perm.len() ==> 0 <= #[trigger] perm[i] < a.transactions.items@.len(),
        forall|i: int|
            0 <= i < perm.len() ==> #[trigger] b.transactions.items@[i]
                == a.transactions.items@[perm[i]],
    ensures
        forall|i: int|
            0 <= i < perm.len() ==> #[trigger] trx_m(b, st).rows[1 + i] == trx_m(a, st).rows[1
                + perm[i]],
{
    lemma_rows_follow_stored_order(a, st);
    lemma_rows_follow_stored_order(b, st);
    assert forall|i: int| 0 <= i < perm.len() implies #[trigger] trx_m(b, st).rows[1 + i]
        == trx_m(a, st).rows[1 + perm[i]] by {
        assert(b.transactions.items@[i] == a.transactions.items@[perm[i]]);
        assert(trx_m(a, st).rows[1 + perm[i]] == trx_row_m(a.transactions.items@[perm[i]], st));
    }
}

/// The items table has one header row, one row per item and three summary rows.
pub proof fn lemma_items_row_count(inv: Invoice, st: StyleRegistry)
    ensures
        items_m(inv, st).rows.len() == 1 + inv.items@.len() + 3,
{
}

/// The transactions table has one header row, one row per transaction and one
/// Balance row.
pub proof fn lemma_transactions_row_count(inv: Invoice, st: StyleRegistry)
    ensures
        trx_m(inv, st).rows.len() == 1 + inv.transactions.items@.len() + 1,
{
}

/// The status is styled as paid exactly when its text is "PAID"; any other
/// text, whatever its case, gets the unpaid style.
pub proof fn lemma_status_style(inv: Invoice, st: StyleRegistry)
    ensures
        header_m(inv, st).rows[0][1].lines[0].style == (if inv.status@ == "PAID"@ {
            st.status_paid
        } else {
            st.status_unpaid
        }),
{
}

/// The Balance row closes the transactions table with the amount "0", and the
/// stored balance has no influence on the table.
pub proof fn lemma_balance_row_is_zero(a: Invoice, b: Invoice, st: StyleRegistry)
    requires
        a.transactions.items == b.transactions.items,
    ensures
        trx_m(a, st).rows.last() == balance_row_m(st),
        trx_m(a, st).rows.last()[2].lines[0].content == "0"@,
        trx_m(a, st) == trx_m(b, st),
{
}

} // verus!
