use vstd::prelude::*;
use crate::assemble::{assemble, blocks_m, document_m, Block};
use crate::model::Invoice;
use crate::style::{standard_registry, StyleRegistry};
use crate::text::prefixed;

verus! {

/// Pairs an invoice with the style registry its document is built with.
pub struct InvoiceExporter {
    pub invoice: Invoice,
    pub styles: StyleRegistry,
}

impl InvoiceExporter {
    /// An exporter for `invoice` with the standard styles.
    pub fn new(invoice: Invoice) -> (r: InvoiceExporter)
        ensures
            r.invoice == invoice,
            r.styles == standard_registry(),
    {
        InvoiceExporter { invoice, styles: StyleRegistry::new() }
    }

    /// The assembled block sequence of the invoice.
    pub fn document(&self) -> (r: Vec<Block>)
        ensures
            blocks_m(r@) == document_m(self.invoice, self.styles),
    {
        assemble(&self.invoice, &self.styles)
    }

    /// The name of the output file: "invoice_", the invoice number, ".pdf".
    pub fn file_name(&self) -> (r: String)
        ensures
            r@ == "invoice_"@ + self.invoice.number@ + ".pdf"@,
    {
        let mut s = prefixed("invoice_", &self.invoice.number);
        s.append(".pdf");
        s
    }
}

} // verus!
