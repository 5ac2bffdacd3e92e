//! The names most callers need, in one import.

pub use crate::{
    AmountError, Attachment, BtId, Date, DocumentKind, DocumentReference, Finding, Group, Identifier,
    Invoice, InvoiceAmount, InvoiceLine, InvoiceNote, ParseAmountError, ParseDateError, Path,
    Percentage, Profile, Quantity, Severity, UnitPriceAmount, ValidationReport, VatCategory, validate,
};
