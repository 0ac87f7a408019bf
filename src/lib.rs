pub mod assemble;
pub mod exporter;
pub mod grid;
pub mod laws;
pub mod model;
pub mod style;
pub mod text;

pub use assemble::{assemble, Block};
pub use exporter::InvoiceExporter;
pub use grid::{Align, Cell, Padding, Row, RowArityError, TableGrid, Text};
pub use model::{InvItem, InvUser, Invoice, Status, Trx, TrxItem};
pub use style::{Color, Style, StyleRegistry, StyleRole};
