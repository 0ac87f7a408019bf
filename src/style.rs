use vstd::prelude::*;

verus! {

/// An RGB colour.
#[derive(Clone, Copy, Debug, PartialEq, Eq, Structural)]
pub struct Color {
    pub r: u8,
    pub g: u8,
    pub b: u8,
}

/// The visual attributes of a run of text.
#[derive(Clone, Copy, Debug, PartialEq, Eq, Structural)]
pub struct Style {
    pub size: u8,
    pub bold: bool,
    pub color: Color,
}

/// The semantic roles a piece of text can play in the document.
#[derive(Clone, Copy, Debug, PartialEq, Eq, Structural)]
pub enum StyleRole {
    HeaderTitle,
    InvoiceNumber,
    StatusUnpaid,
    StatusPaid,
    TableHeader,
    Body,
    Emphasis,
    EmphasisTotal,
    SectionTitle,
}

/// The fixed mapping from role to style shared by every block of a document.
#[derive(Clone, Copy, Debug, PartialEq, Eq, Structural)]
pub struct StyleRegistry {
    pub header_title: Style,
    pub invoice_number: Style,
    pub status_unpaid: Style,
    pub status_paid: Style,
    pub table_header: Style,
    pub body: Style,
    pub emphasis: Style,
    pub emphasis_total: Style,
    pub section_title: Style,
}

/// The style of the given size, weight and colour.
pub open spec fn style_of(size: u8, bold: bool, r: u8, g: u8, b: u8) -> Style {
    Style { size, bold, color: Color { r, g, b } }
}

/// The configuration every document is built with.
pub open spec fn standard_registry() -> StyleRegistry {
    StyleRegistry {
        header_title: style_of(24, true, 0, 0, 0),
        invoice_number: style_of(12, false, 100, 100, 100),
        status_unpaid: style_of(16, true, 200, 30, 30),
        status_paid: style_of(16, true, 30, 150, 60),
        table_header: style_of(10, true, 80, 80, 80),
        body: style_of(10, false, 0, 0, 0),
        emphasis: style_of(10, true, 0, 0, 0),
        emphasis_total: style_of(12, true, 0, 0, 0),
        section_title: style_of(12, true, 0, 0, 0),
    }
}

impl StyleRegistry {
    /// The style that this registry assigns to `role`.
    pub open spec fn spec_get(self, role: StyleRole) -> Style {
        match role {
            StyleRole::HeaderTitle => self.header_title,
            StyleRole::InvoiceNumber => self.invoice_number,
            StyleRole::StatusUnpaid => self.status_unpaid,
            StyleRole::StatusPaid => self.status_paid,
            StyleRole::TableHeader => self.table_header,
            StyleRole::Body => self.body,
            StyleRole::Emphasis => self.emphasis,
            StyleRole::EmphasisTotal => self.emphasis_total,
            StyleRole::SectionTitle => self.section_title,
        }
    }

    /// Builds the standard registry.
    pub fn new() -> (r: StyleRegistry)
        ensures
            r == standard_registry(),
    {
        StyleRegistry {
            header_title: Style { size: 24, bold: true, color: Color { r: 0, g: 0, b: 0 } },
            invoice_number: Style { size: 12, bold: false, color: Color { r: 100, g: 100, b: 100 } },
            status_unpaid: Style { size: 16, bold: true, color: Color { r: 200, g: 30, b: 30 } },
            status_paid: Style { size: 16, bold: true, color: Color { r: 30, g: 150, b: 60 } },
            table_header: Style { size: 10, bold: true, color: Color { r: 80, g: 80, b: 80 } },
            body: Style { size: 10, bold: false, color: Color { r: 0, g: 0, b: 0 } },
            emphasis: Style { size: 10, bold: true, color: Color { r: 0, g: 0, b: 0 } },
            emphasis_total: Style { size: 12, bold: true, color: Color { r: 0, g: 0, b: 0 } },
            section_title: Style { size: 12, bold: true, color: Color { r: 0, g: 0, b: 0 } },
        }
    }

    /// The style for `role`.
    pub fn get(&self, role: StyleRole) -> (r: Style)
        ensures
            r == self.spec_get(role),
    {
        match role {
            StyleRole::HeaderTitle => self.header_title,
            StyleRole::InvoiceNumber => self.invoice_number,
            StyleRole::StatusUnpaid => self.status_unpaid,
            StyleRole::StatusPaid => self.status_paid,
            StyleRole::TableHeader => self.table_header,
            StyleRole::Body => self.body,
            StyleRole::Emphasis => self.emphasis,
            StyleRole::EmphasisTotal => self.emphasis_total,
            StyleRole::SectionTitle => self.section_title,
        }
    }
}

} // verus!
