use vstd::prelude::*;

verus! {

/// A party of the invoice: the recipient or the issuer.
#[derive(Clone, Debug, Default)]
pub struct InvUser {
    pub name: String,
    pub address: Option<String>,
    pub phone: Option<String>,
    pub email: Option<String>,
}

/// One line item. `amount` is taken as given and never recomputed.
#[derive(Clone, Debug, Default)]
pub struct InvItem {
    pub description: String,
    pub quantity: u8,
    pub price: i64,
    pub amount: i64,
}

/// One payment transaction.
#[derive(Clone, Debug, Default)]
pub struct TrxItem {
    pub id: String,
    pub date: String,
    pub amount: u64,
}

/// The payment history of an invoice.
#[derive(Clone, Debug, Default)]
pub struct Trx {
    pub balance: u64,
    pub items: Vec<TrxItem>,
}

/// The root business record describing one bill.
#[derive(Clone, Debug, Default)]
pub struct Invoice {
    pub number: String,
    pub status: String,
    pub issuedate: String,
    pub duedate: String,
    pub paiddate: Option<String>,
    pub subtotal: u64,
    pub tax: u64,
    pub total: u64,
    pub items: Vec<InvItem>,
    pub transactions: Trx,
    pub invto: InvUser,
    pub invfrom: InvUser,
    pub notes: Option<Vec<String>>,
}

/// The closed set of payment states that styling distinguishes.
#[derive(Clone, Copy, Debug, PartialEq, Eq, Structural)]
pub enum Status {
    Paid,
    Unpaid,
}

/// A status text denotes `Paid` exactly when it is the literal "PAID".
pub open spec fn status_of(text: Seq<char>) -> Status {
    if text == "PAID"@ {
        Status::Paid
    } else {
        Status::Unpaid
    }
}

impl Status {
    /// Classifies a status text by exact, case-sensitive comparison with "PAID".
    pub fn from_text(text: &String) -> (r: Status)
        ensures
            r == status_of(text@),
    {
        let paid = String::from_str("PAID");
        if *text == paid {
            Status::Paid
        } else {
            Status::Unpaid
        }
    }
}

} // verus!
