//! The European e-invoice: the EN 16931 semantic data model, its data types
//! and the business rules that can be decided on the model alone.

#![allow(unused_imports)]

pub mod amount;
pub mod attachment;
pub mod bt;
pub mod codes;
pub mod date;
pub mod decimal;
pub mod edition;
pub mod error;
pub mod fmt;
pub mod identifier;
pub mod invoice;
pub mod numeric;
pub mod prelude;
pub mod profiles;
pub mod reconcile;
pub mod svrl;
pub mod text;
pub mod validation;

pub use amount::{InvoiceAmount, UnitPriceAmount};
pub use attachment::{Attachment, AttachmentError};
pub use bt::{BtId, Group, Path};
pub use codes::VatCategory;
pub use date::Date;
pub use edition::Edition;
pub use error::{AmountError, ParseAmountError, ParseDateError};
pub use identifier::{DocumentReference, Identifier};
pub use invoice::{DocumentKind, Invoice, InvoiceLine, InvoiceNote};
pub use numeric::{Percentage, Quantity};
pub use reconcile::{ReconcileError, Reconciler, reconcile};
pub use validation::engine::validate;
pub use validation::profile::Profile;
pub use validation::{Finding, Severity, ValidationReport};

use vstd::prelude::*;

verus! {

/// The licence notice every report carries: this library implements the
/// EN 16931-1 semantic data model, whose text is CEN's.
pub const ATTRIBUTION: &'static str = "implementation of the EN 16931-1 semantic data model; © CEN, used under the 2018 CEN–EC licence agreement";

/// The CEN validation artefacts release the rule set follows.
pub const ARTEFACT_VERSION: &'static str = "validation-1.3.16";

/// The edition validated against when a document does not select one.
pub const DEFAULT_EDITION: crate::edition::Edition = crate::edition::Edition::En2017A1;

} // verus!
