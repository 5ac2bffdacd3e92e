//! The EN 16931 core invoice model — Table 2, as structs.
//!
//! Coded terms other than the VAT category are [`Code`]s, not enums: a
//! document carrying `BT-3 = "999"` is invalid, and a parser must still be able
//! to load it in order to say so. Totals are `Option` where the standard says
//! 0..1, because absent is not zero.

use vstd::prelude::*;

use crate::amount::{InvoiceAmount, UnitPriceAmount};
use crate::attachment::Attachment;
use crate::bt::{Group, Path};
use crate::codes::{VatCategory, category_of_code, contains, lists_text, sorted_texts};
use crate::decimal::{Dec, dec_checked_div, decimal_checked_div};
use crate::numeric::{Percentage, Quantity};
use crate::reconcile::{ReconcileError, Reconciled, Reconciler, reconcile, reconcile_outcome};
use crate::date::Date;
use crate::identifier::{DocumentReference, Identifier, opt_view, owned};
use crate::text::{blank, chars_of, is_blank_str, string_of};

verus! {

// ── Code ──────────────────────────────────────────────────────────────────────

/// A value from a code list — EN 16931-1 §6.5.8 `Code. Type`.
///
/// Holds the string verbatim: no case folding and no trimming.
#[derive(Debug, PartialEq, Eq, PartialOrd, Ord, Hash)]
pub struct Code(String);

impl View for Code {
    type V = Seq<char>;

    closed spec fn view(&self) -> Seq<char> {
        self.0@
    }
}

impl Code {
    /// Wrap a code value verbatim.
    pub fn new(code: &str) -> (c: Code)
        ensures
            c@ == code@,
    {
        Code(string_of(&chars_of(code)))
    }

    /// Wrap an owned code value verbatim.
    pub fn from_string(code: String) -> (c: Code)
        ensures
            c@ == code@,
    {
        Code(code)
    }

    /// The value.
    pub fn as_str(&self) -> (r: &str)
        ensures
            r@ == self@,
    {
        self.0.as_str()
    }

    /// Whether the value appears in the sorted `list` — see [`contains`].
    pub fn is_in(&self, list: &[&str]) -> (b: bool)
        requires
            sorted_texts(list@),
        ensures
            b == lists_text(list@, self@),
    {
        contains(list, self.0.as_str())
    }

    /// Whether the value is empty or whitespace only.
    pub fn is_blank(&self) -> (b: bool)
        ensures
            b == blank(self@),
    {
        is_blank_str(self.0.as_str())
    }
}


impl Default for Code {
    /// The empty code.
    fn default() -> (c: Code)
        ensures
            c@ == Seq::<char>::empty(),
    {
        Code(String::new())
    }
}

impl Clone for Code {
    /// The same code.
    fn clone(&self) -> (c: Code)
        ensures
            c == *self,
    {
        Code(self.0.clone())
    }
}

// ── Supporting groups ─────────────────────────────────────────────────────────

/// BG-14 INVOICING PERIOD, or BG-26 at line level.
#[derive(Debug, Clone, Copy, PartialEq, Eq, Structural)]
pub struct Period {
    /// BT-73 / BT-134 — start date.
    pub start: Option<Date>,
    /// BT-74 / BT-135 — end date.
    pub end: Option<Date>,
}

impl Default for Period {
    /// Neither endpoint.
    fn default() -> (p: Period)
        ensures
            p.start is None,
            p.end is None,
    {
        Period { start: None, end: None }
    }
}

impl Period {
    /// Whether the end is on or after the start — BR-29 / BR-30. `None` when
    /// either endpoint is absent, which BR-CO-19 / BR-CO-20 handle separately.
    pub fn is_ordered(&self) -> (r: Option<bool>)
        ensures
            match (self.start, self.end) {
                (Some(s), Some(e)) => r == Some(s.not_after(e)),
                _ => r is None,
            },
    {
        match (self.start, self.end) {
            (Some(s), Some(e)) => Some(s.is_on_or_before(e)),
            _ => None,
        }
    }
}

/// A postal address — BG-5, BG-8, BG-12 or BG-15.
#[derive(Debug, PartialEq, Eq)]
pub struct PostalAddress {
    /// BT-35 / BT-50 — address line 1.
    pub line1: Option<String>,
    /// BT-36 / BT-51 — address line 2.
    pub line2: Option<String>,
    /// BT-162 / BT-163 / BT-164 / BT-165 — address line 3.
    pub line3: Option<String>,
    /// BT-37 / BT-52 — city.
    pub city: Option<String>,
    /// BT-38 / BT-53 — post code.
    pub post_code: Option<String>,
    /// BT-39 / BT-54 — country subdivision.
    pub subdivision: Option<String>,
    /// BT-40 / BT-55 / BT-69 / BT-80 — **mandatory** country code (BR-09, BR-11).
    pub country: Option<Code>,
}

impl Default for PostalAddress {
    /// An address with nothing in it.
    fn default() -> (a: PostalAddress)
        ensures
            a.line1 is None && a.line2 is None && a.line3 is None,
            a.city is None && a.post_code is None && a.subdivision is None,
            a.country is None,
    {
        PostalAddress {
            line1: None,
            line2: None,
            line3: None,
            city: None,
            post_code: None,
            subdivision: None,
            country: None,
        }
    }
}

/// BG-6 SELLER CONTACT or BG-9 BUYER CONTACT — mandatory in XRechnung.
#[derive(Debug, PartialEq, Eq)]
pub struct Contact {
    /// BT-41 / BT-56 — contact point.
    pub name: Option<String>,
    /// BT-42 / BT-57 — telephone number.
    pub phone: Option<String>,
    /// BT-43 / BT-58 — email address.
    pub email: Option<String>,
}

impl Default for Contact {
    /// A contact with nothing in it.
    fn default() -> (c: Contact)
        ensures
            c.name is None && c.phone is None && c.email is None,
    {
        Contact { name: None, phone: None, email: None }
    }
}

/// BG-4 SELLER or BG-7 BUYER.
#[derive(Debug, PartialEq, Eq)]
pub struct Party {
    /// BT-27 / BT-44 — **mandatory** name (BR-06, BR-07).
    pub name: Option<String>,
    /// BT-28 / BT-45 — trading name.
    pub trading_name: Option<String>,
    /// BT-29 / BT-46 — identifiers.
    pub identifiers: Vec<Identifier>,
    /// BT-30 / BT-47 — legal registration identifier.
    pub legal_registration: Option<Identifier>,
    /// BT-31 / BT-48 — VAT identifier. BR-CO-09 constrains its prefix.
    pub vat_identifier: Option<String>,
    /// BT-32 — seller tax registration identifier.
    pub tax_registration: Option<String>,
    /// BT-33 — seller additional legal information.
    pub additional_legal_information: Option<String>,
    /// BT-34 / BT-49 — **mandatory** electronic address with a scheme.
    pub electronic_address: Option<Identifier>,
    /// BG-5 / BG-8 — **mandatory** postal address (BR-08, BR-10).
    pub address: PostalAddress,
    /// BG-6 / BG-9 — contact.
    pub contact: Contact,
}

impl Default for Party {
    /// A party with nothing in it.
    fn default() -> (p: Party)
        ensures
            p.name is None && p.trading_name is None,
            p.identifiers@.len() == 0,
            p.legal_registration is None && p.vat_identifier is None,
            p.tax_registration is None && p.additional_legal_information is None,
            p.electronic_address is None,
            p.address.city is None && p.address.post_code is None && p.address.country is None,
            p.contact.name is None && p.contact.phone is None && p.contact.email is None,
    {
        Party {
            name: None,
            trading_name: None,
            identifiers: Vec::new(),
            legal_registration: None,
            vat_identifier: None,
            tax_registration: None,
            additional_legal_information: None,
            electronic_address: None,
            address: PostalAddress::default(),
            contact: Contact::default(),
        }
    }
}

/// Which side of the transaction a [`Party`] is on.
#[derive(Debug, Clone, Copy, PartialEq, Eq, Hash, Structural)]
pub enum PartyRole {
    /// BG-4 — the seller.
    Seller,
    /// BG-7 — the buyer.
    Buyer,
}

impl PartyRole {
    /// The [`Group`] a finding about this party carries.
    pub fn group(self) -> (g: Group)
        ensures
            g == (match self {
                PartyRole::Seller => Group::Seller,
                PartyRole::Buyer => Group::Buyer,
            }),
    {
        match self {
            PartyRole::Seller => Group::Seller,
            PartyRole::Buyer => Group::Buyer,
        }
    }
}

/// Whether the document is an invoice or a credit note — what the syntax's
/// root element states, not derived from BT-3.
#[derive(Debug, Clone, Copy, PartialEq, Eq, Hash, Structural)]
pub enum DocumentKind {
    /// `ubl-invoice:Invoice`.
    Invoice,
    /// `ubl-creditnote:CreditNote`.
    CreditNote,
}

impl Default for DocumentKind {
    /// An invoice.
    fn default() -> (k: DocumentKind)
        ensures
            k == DocumentKind::Invoice,
    {
        DocumentKind::Invoice
    }
}

/// BG-1 INVOICE NOTE — free text with an optional subject code.
#[derive(Debug, PartialEq, Eq)]
pub struct InvoiceNote {
    /// BT-21 — the note's subject, from UNCL 4451.
    pub subject_code: Option<Code>,
    /// BT-22 — the note itself.
    pub note: Option<String>,
}

impl Default for InvoiceNote {
    /// An empty note.
    fn default() -> (n: InvoiceNote)
        ensures
            n.subject_code is None && n.note is None,
    {
        InvoiceNote { subject_code: None, note: None }
    }
}

impl InvoiceNote {
    /// A note with no subject code.
    pub fn new(note: &str) -> (n: InvoiceNote)
        ensures
            n.subject_code is None,
            n.note matches Some(t) && t@ == note@,
    {
        InvoiceNote { subject_code: None, note: Some(owned(note)) }
    }

    /// Set BT-21.
    pub fn with_subject(self, code: &str) -> (n: InvoiceNote)
        ensures
            n.subject_code matches Some(c) && c@ == code@,
            n.note == self.note,
    {
        InvoiceNote { subject_code: Some(Code::new(code)), note: self.note }
    }
}

/// BG-10 PAYEE — where payment is directed, when that is not the seller.
#[derive(Debug, PartialEq, Eq)]
pub struct Payee {
    /// BT-59 — **mandatory** payee name (BR-17).
    pub name: Option<String>,
    /// BT-60 — payee identifier.
    pub identifier: Option<Identifier>,
    /// BT-61 — payee legal registration identifier.
    pub legal_registration: Option<Identifier>,
}

/// BG-11 SELLER TAX REPRESENTATIVE PARTY.
#[derive(Debug, PartialEq, Eq)]
pub struct TaxRepresentative {
    /// BT-62 — **mandatory** name (BR-18).
    pub name: Option<String>,
    /// BT-63 — **mandatory** VAT identifier (BR-56).
    pub vat_identifier: Option<String>,
    /// BG-12 — **mandatory** postal address (BR-19).
    pub address: PostalAddress,
}

/// BG-3 PRECEDING INVOICE REFERENCE.
#[derive(Debug, PartialEq, Eq)]
pub struct PrecedingInvoice {
    /// BT-25 — **mandatory** reference (BR-55).
    pub reference: DocumentReference,
    /// BT-26 — issue date.
    pub issue_date: Option<Date>,
}

/// BG-24 ADDITIONAL SUPPORTING DOCUMENTS.
#[derive(Debug, PartialEq, Eq)]
pub struct SupportingDocument {
    /// BT-122 — **mandatory** reference (BR-52).
    pub reference: DocumentReference,
    /// BT-123 — description.
    pub description: Option<String>,
    /// BT-124 — external URI.
    pub uri: Option<String>,
    /// BT-125 — the attached file.
    pub attachment: Option<Attachment>,
}

/// BG-17 CREDIT TRANSFER.
#[derive(Debug, PartialEq, Eq)]
pub struct CreditTransfer {
    /// BT-84 — **mandatory** payment account identifier (BR-50).
    pub account_identifier: Option<String>,
    /// BT-85 — payment account name.
    pub account_name: Option<String>,
    /// BT-86 — payment service provider identifier.
    pub provider_identifier: Option<String>,
}

/// BG-18 PAYMENT CARD INFORMATION.
#[derive(Debug, PartialEq, Eq)]
pub struct PaymentCard {
    /// BT-87 — card primary account number; BR-51 warns against a full PAN.
    pub primary_account_number: Option<String>,
    /// BT-88 — payment card holder name.
    pub holder_name: Option<String>,
}

/// BG-19 DIRECT DEBIT.
#[derive(Debug, PartialEq, Eq)]
pub struct DirectDebit {
    /// BT-89 — mandate reference.
    pub mandate_reference: Option<String>,
    /// BT-90 — bank assigned creditor identifier.
    pub creditor_identifier: Option<String>,
    /// BT-91 — debited account identifier.
    pub debited_account: Option<String>,
}

/// BG-17, BG-18 or BG-19 — **mutually exclusive** by construction.
#[derive(Debug, PartialEq, Eq)]
pub enum PaymentMeans {
    /// BG-17 — one or more credit transfers.
    CreditTransfer(Vec<CreditTransfer>),
    /// BG-18 — payment card information.
    Card(PaymentCard),
    /// BG-19 — direct debit.
    DirectDebit(DirectDebit),
}

/// BG-16 PAYMENT INSTRUCTIONS.
#[derive(Debug, PartialEq, Eq)]
pub struct PaymentInstructions {
    /// BT-81 — **mandatory** payment means code (BR-49).
    pub means_code: Option<Code>,
    /// BT-82 — payment means text.
    pub means_text: Option<String>,
    /// BT-83 — remittance information.
    pub remittance_information: Option<String>,
    /// BG-17 / BG-18 / BG-19 — at most one, by construction.
    pub means: Option<PaymentMeans>,
}

impl Default for PaymentInstructions {
    /// Instructions with nothing in them.
    fn default() -> (p: PaymentInstructions)
        ensures
            p.means_code is None && p.means_text is None,
            p.remittance_information is None && p.means is None,
    {
        PaymentInstructions {
            means_code: None,
            means_text: None,
            remittance_information: None,
            means: None,
        }
    }
}

/// The text of an optional string.
pub open spec fn opt_str_view(s: Option<&str>) -> Option<Seq<char>> {
    match s {
        Some(t) => Some(t@),
        None => None,
    }
}

impl PaymentInstructions {
    /// BT-84, when this is a credit transfer: the first transfer's account.
    pub fn account_identifier(&self) -> (r: Option<&str>)
        ensures
            opt_str_view(r) == match self.means {
                Some(PaymentMeans::CreditTransfer(ts)) => if ts@.len() > 0 {
                    opt_view(ts@[0].account_identifier)
                } else {
                    None
                },
                _ => None,
            },
    {
        match &self.means {
            Some(PaymentMeans::CreditTransfer(ts)) => {
                if ts.len() > 0 {
                    match &ts[0].account_identifier {
                        Some(a) => Some(a.as_str()),
                        None => None,
                    }
                } else {
                    None
                }
            },
            _ => None,
        }
    }

    /// BT-89, when this is a direct debit.
    pub fn mandate_reference(&self) -> (r: Option<&str>)
        ensures
            opt_str_view(r) == match self.means {
                Some(PaymentMeans::DirectDebit(d)) => opt_view(d.mandate_reference),
                _ => None,
            },
    {
        match &self.means {
            Some(PaymentMeans::DirectDebit(d)) => match &d.mandate_reference {
                Some(m) => Some(m.as_str()),
                None => None,
            },
            _ => None,
        }
    }
}

/// BG-13 DELIVERY INFORMATION.
#[derive(Debug, PartialEq, Eq)]
pub struct Delivery {
    /// BT-70 — deliver-to party name.
    pub party_name: Option<String>,
    /// BT-71 — deliver-to location identifier.
    pub location: Option<Identifier>,
    /// BT-72 — actual delivery date.
    pub date: Option<Date>,
    /// BG-15 — deliver-to address. BT-80 is mandatory if present (BR-57).
    pub address: Option<PostalAddress>,
}


// ── VAT ───────────────────────────────────────────────────────────────────────

/// The VAT treatment of a line, allowance or charge — BG-30, or BT-95/96,
/// or BT-102/103.
#[derive(Debug, PartialEq, Eq)]
pub struct LineVat {
    /// BT-151 / BT-95 / BT-102 — **mandatory** category code.
    pub category: Code,
    /// BT-152 / BT-96 / BT-103 — the rate; `None` for category `O` only.
    pub rate: Option<Percentage>,
}

impl Clone for LineVat {
    /// The same category and rate.
    fn clone(&self) -> (v: LineVat)
        ensures
            v == *self,
    {
        LineVat { category: self.category.clone(), rate: self.rate }
    }
}

impl LineVat {
    /// The category's semantics, if the code is one of the ten UNCL 5305
    /// values; `None` means `BR-CL-17` / `BR-CL-18` fails.
    pub fn semantics(&self) -> (r: Option<VatCategory>)
        ensures
            r == category_of_code(self.category@),
    {
        VatCategory::from_code(self.category.as_str())
    }
}

/// BG-23 VAT BREAKDOWN — one entry per `(category, rate)`.
#[derive(Debug, PartialEq, Eq)]
pub struct VatBreakdown {
    /// BT-116 — **mandatory** taxable amount (BR-45).
    pub taxable_amount: InvoiceAmount,
    /// BT-117 — **mandatory** tax amount (BR-46).
    pub tax_amount: InvoiceAmount,
    /// BT-118 — **mandatory** category code (BR-47).
    pub category: Code,
    /// BT-119 — the category rate. XRechnung's BR-DE-14 requires it always.
    pub rate: Option<Percentage>,
    /// BT-120 — exemption reason text.
    pub exemption_reason: Option<String>,
    /// BT-121 — exemption reason code, from the CEF VATEX list.
    pub exemption_reason_code: Option<Code>,
}

impl VatBreakdown {
    /// The category's semantics, if the code is valid.
    pub fn semantics(&self) -> (r: Option<VatCategory>)
        ensures
            r == category_of_code(self.category@),
    {
        VatCategory::from_code(self.category.as_str())
    }

    /// Whether either form of exemption reason is stated.
    pub fn has_exemption_reason(&self) -> (b: bool)
        ensures
            b == (self.exemption_reason is Some || self.exemption_reason_code is Some),
    {
        self.exemption_reason.is_some() || self.exemption_reason_code.is_some()
    }

    /// The grouping key BR-S-08 and its siblings compare on. The rate compares
    /// by value, so `19` and `19.00` are one group.
    pub fn group_key(&self) -> (r: (Code, Option<Percentage>))
        ensures
            r.0 == self.category,
            r.1 == self.rate,
    {
        (self.category.clone(), self.rate)
    }
}

// ── Allowances and charges ────────────────────────────────────────────────────

/// BG-20 DOCUMENT LEVEL ALLOWANCE or BG-21 DOCUMENT LEVEL CHARGE.
#[derive(Debug, PartialEq, Eq)]
pub struct DocumentAllowanceCharge {
    /// BT-92 / BT-99 — **mandatory** amount, stated **positive**.
    pub amount: InvoiceAmount,
    /// BT-93 / BT-100 — base amount.
    pub base_amount: Option<InvoiceAmount>,
    /// BT-94 / BT-101 — percentage.
    pub percentage: Option<Percentage>,
    /// BT-95 / BT-102 and BT-96 / BT-103 — **mandatory** VAT.
    pub vat: LineVat,
    /// BT-97 / BT-104 — reason text.
    pub reason: Option<String>,
    /// BT-98 / BT-105 — reason code.
    pub reason_code: Option<Code>,
}

/// BG-27 INVOICE LINE ALLOWANCE or BG-28 INVOICE LINE CHARGE.
#[derive(Debug, PartialEq, Eq)]
pub struct LineAllowanceCharge {
    /// BT-136 / BT-141 — **mandatory** amount.
    pub amount: InvoiceAmount,
    /// BT-137 / BT-142 — base amount.
    pub base_amount: Option<InvoiceAmount>,
    /// BT-138 / BT-143 — percentage.
    pub percentage: Option<Percentage>,
    /// BT-139 / BT-144 — reason text.
    pub reason: Option<String>,
    /// BT-140 / BT-145 — reason code.
    pub reason_code: Option<Code>,
}

// ── Invoice line ──────────────────────────────────────────────────────────────

/// BG-29 PRICE DETAILS.
#[derive(Debug, PartialEq, Eq)]
pub struct PriceDetails {
    /// BT-146 — **mandatory** item net price (BR-26). Not negative (BR-27).
    pub net_price: UnitPriceAmount,
    /// BT-147 — item price discount.
    pub price_discount: Option<UnitPriceAmount>,
    /// BT-148 — item gross price. Not negative (BR-28).
    pub gross_price: Option<UnitPriceAmount>,
    /// BT-149 — price base quantity. `None` means 1.
    pub base_quantity: Option<Quantity>,
    /// BT-150 — its unit code.
    pub base_quantity_code: Option<Code>,
}

impl Default for PriceDetails {
    /// A zero net price and nothing else.
    fn default() -> (p: PriceDetails)
        ensures
            p.net_price@.mantissa == 0,
            p.price_discount is None && p.gross_price is None,
            p.base_quantity is None && p.base_quantity_code is None,
    {
        PriceDetails {
            net_price: UnitPriceAmount::zero(),
            price_discount: None,
            gross_price: None,
            base_quantity: None,
            base_quantity_code: None,
        }
    }
}

/// BG-32 ITEM ATTRIBUTES — a name/value pair describing the item.
#[derive(Debug, PartialEq, Eq)]
pub struct ItemAttribute {
    /// BT-160 — **mandatory** attribute name (BR-54).
    pub name: Option<String>,
    /// BT-161 — **mandatory** attribute value (BR-54).
    pub value: Option<String>,
}

/// BG-31 ITEM INFORMATION.
#[derive(Debug, PartialEq, Eq)]
pub struct Item {
    /// BT-153 — **mandatory** item name (BR-25).
    pub name: Option<String>,
    /// BT-154 — item description.
    pub description: Option<String>,
    /// BT-155 — seller's item identifier.
    pub seller_identifier: Option<String>,
    /// BT-156 — buyer's item identifier.
    pub buyer_identifier: Option<String>,
    /// BT-157 — standard identifier. **Must** carry a scheme (BR-64).
    pub standard_identifier: Option<Identifier>,
    /// BT-158 — classification identifiers. **Must** carry a scheme (BR-65).
    pub classification_identifiers: Vec<Identifier>,
    /// BT-159 — item country of origin.
    pub origin_country: Option<Code>,
    /// BG-32 — item attributes.
    pub attributes: Vec<ItemAttribute>,
}

impl Default for Item {
    /// An item with nothing in it.
    fn default() -> (i: Item)
        ensures
            i.name is None && i.description is None,
            i.seller_identifier is None && i.buyer_identifier is None,
            i.standard_identifier is None && i.classification_identifiers@.len() == 0,
            i.origin_country is None && i.attributes@.len() == 0,
    {
        Item {
            name: None,
            description: None,
            seller_identifier: None,
            buyer_identifier: None,
            standard_identifier: None,
            classification_identifiers: Vec::new(),
            origin_country: None,
            attributes: Vec::new(),
        }
    }
}

/// BG-25 INVOICE LINE.
#[derive(Debug, PartialEq, Eq)]
pub struct InvoiceLine {
    /// BT-126 — **mandatory** line identifier (BR-21).
    pub id: String,
    /// BT-127 — line note.
    pub note: Option<String>,
    /// BT-132 — referenced purchase order line reference.
    pub order_line_reference: Option<DocumentReference>,
    /// BT-133 — line buyer accounting reference.
    pub accounting_reference: Option<String>,
    /// BT-128 — line object identifier.
    pub object_identifier: Option<Identifier>,
    /// BT-129 — **mandatory** invoiced quantity (BR-22). **May be negative.**
    pub quantity: Quantity,
    /// BT-130 — **mandatory** unit of measure code (BR-23).
    pub unit_code: Code,
    /// BT-131 — **mandatory** line net amount (BR-24).
    pub net_amount: InvoiceAmount,
    /// BG-26 — line period.
    pub period: Option<Period>,
    /// BG-27 — line allowances. Already folded into BT-131.
    pub allowances: Vec<LineAllowanceCharge>,
    /// BG-28 — line charges. Already folded into BT-131.
    pub charges: Vec<LineAllowanceCharge>,
    /// BG-29 — **mandatory** price details.
    pub price: PriceDetails,
    /// BG-30 — **mandatory** line VAT information (BR-CO-04).
    pub vat: LineVat,
    /// BG-31 — item information.
    pub item: Item,
}

/// BT-146 as derived from a line: zero for a zero quantity, otherwise the
/// quotient `rust_decimal` computes for BT-131 ÷ BT-129, or zero when it has
/// none.
pub open spec fn derived_price(net: InvoiceAmount, quantity: Dec) -> (int, int) {
    if quantity.mantissa == 0 {
        (0, 0)
    } else {
        match decimal_checked_div(net@, 2, quantity.mantissa as int, quantity.scale as int) {
            Some(q) => q,
            None => (0, 0),
        }
    }
}

impl InvoiceLine {
    /// BT-146 given whether the quantity is zero and the quotient of the net
    /// amount by it: zero rather than a division for a zero quantity, and zero
    /// when the division gave nothing.
    pub fn net_price_from(quantity_is_zero: bool, quotient: Option<Dec>) -> (p: UnitPriceAmount)
        requires
            quotient matches Some(d) ==> d.wf(),
        ensures
            quantity_is_zero ==> p@.mantissa == 0 && p@.scale == 0,
            !quantity_is_zero ==> match quotient {
                Some(d) => p@ == d,
                None => p@.mantissa == 0 && p@.scale == 0,
            },
    {
        if quantity_is_zero {
            UnitPriceAmount::zero()
        } else {
            match quotient {
                Some(d) => UnitPriceAmount::new(d),
                None => UnitPriceAmount::zero(),
            }
        }
    }

    /// A line, naming the seven terms EN 16931 makes mandatory on every one:
    /// BT-126, BT-153, BT-129, BT-130, BT-131, BT-151 and BT-152.
    ///
    /// BT-146 is derived as BT-131 ÷ BT-129 — what `PEPPOL-EN16931-R120` then
    /// checks in the other direction — and is zero for a zero quantity. Use
    /// [`with_price`](Self::with_price) when the price has a base quantity or
    /// the quotient does not terminate.
    pub fn new(
        id: &str,
        item_name: &str,
        quantity: Quantity,
        unit_code: &str,
        net_amount: InvoiceAmount,
        vat_category: &str,
        vat_rate: Option<Percentage>,
    ) -> (l: InvoiceLine)
        ensures
            l.id@ == id@,
            l.note is None && l.order_line_reference is None,
            l.accounting_reference is None && l.object_identifier is None,
            l.quantity == quantity,
            l.unit_code@ == unit_code@,
            l.net_amount == net_amount,
            l.period is None,
            l.allowances@.len() == 0 && l.charges@.len() == 0,
            (l.price.net_price@.mantissa as int, l.price.net_price@.scale as int) == derived_price(
                net_amount,
                quantity@,
            ),
            quantity@.mantissa == 0 ==> l.price.net_price@.mantissa == 0,
            quantity@.mantissa != 0 ==> match decimal_checked_div(
                net_amount@,
                2,
                quantity@.mantissa as int,
                quantity@.scale as int,
            ) {
                Some(q) => l.price.net_price@.mantissa == q.0 && l.price.net_price@.scale == q.1,
                None => l.price.net_price@.mantissa == 0,
            },
            l.price.price_discount is None && l.price.gross_price is None,
            l.price.base_quantity is None && l.price.base_quantity_code is None,
            l.vat.category@ == vat_category@,
            l.vat.rate == vat_rate,
            l.item.name matches Some(n) && n@ == item_name@,
            l.item.description is None && l.item.seller_identifier is None,
            l.item.buyer_identifier is None && l.item.standard_identifier is None,
            l.item.classification_identifiers@.len() == 0 && l.item.origin_country is None,
            l.item.attributes@.len() == 0,
    {
        let q = quantity.into_decimal();
        quantity.check_wf();
        let zero = q.is_zero();
        let quotient = if zero {
            None
        } else {
            dec_checked_div(net_amount.into_decimal(), q)
        };
        let net_price = InvoiceLine::net_price_from(zero, quotient);
        let mut item = Item::default();
        item.name = Some(owned(item_name));
        InvoiceLine {
            id: owned(id),
            note: None,
            order_line_reference: None,
            accounting_reference: None,
            object_identifier: None,
            quantity,
            unit_code: Code::new(unit_code),
            net_amount,
            period: None,
            allowances: Vec::new(),
            charges: Vec::new(),
            price: PriceDetails {
                net_price,
                price_discount: None,
                gross_price: None,
                base_quantity: None,
                base_quantity_code: None,
            },
            vat: LineVat { category: Code::new(vat_category), rate: vat_rate },
            item,
        }
    }

    /// BG-29 — state the price rather than taking the derived quotient.
    pub fn with_price(self, price: PriceDetails) -> (l: InvoiceLine)
        ensures
            l == (InvoiceLine { price, ..self }),
    {
        InvoiceLine { price, ..self }
    }

    /// BT-127 — the line note.
    pub fn with_note(self, note: &str) -> (l: InvoiceLine)
        ensures
            l.note matches Some(n) && n@ == note@,
            l == (InvoiceLine { note: l.note, ..self }),
    {
        InvoiceLine { note: Some(owned(note)), ..self }
    }

    /// BG-31 — replace the item.
    pub fn with_item(self, item: Item) -> (l: InvoiceLine)
        ensures
            l == (InvoiceLine { item, ..self }),
    {
        InvoiceLine { item, ..self }
    }

    /// BG-26 — the line's own invoicing period.
    pub fn with_period(self, period: Period) -> (l: InvoiceLine)
        ensures
            l == (InvoiceLine { period: Some(period), ..self }),
    {
        InvoiceLine { period: Some(period), ..self }
    }
}

// ── Totals ────────────────────────────────────────────────────────────────────

/// BG-22 DOCUMENT TOTALS. Five of the ten terms are `Option`, and **absent is
/// not zero**.
#[derive(Debug, Clone, Copy, PartialEq, Eq, Structural)]
pub struct DocumentTotals {
    /// BT-106 — **mandatory** sum of line net amounts (BR-12).
    pub line_total: InvoiceAmount,
    /// BT-107 — sum of document level allowances.
    pub allowance_total: Option<InvoiceAmount>,
    /// BT-108 — sum of document level charges.
    pub charge_total: Option<InvoiceAmount>,
    /// BT-109 — **mandatory** total without VAT (BR-13).
    pub taxable_total: InvoiceAmount,
    /// BT-110 — total VAT amount.
    pub vat_total: Option<InvoiceAmount>,
    /// BT-111 — total VAT in the accounting currency (BR-53).
    pub vat_total_accounting: Option<InvoiceAmount>,
    /// BT-112 — **mandatory** total with VAT (BR-14).
    pub gross_total: InvoiceAmount,
    /// BT-113 — paid amount.
    pub paid: Option<InvoiceAmount>,
    /// BT-114 — rounding amount.
    pub rounding: Option<InvoiceAmount>,
    /// BT-115 — **mandatory** amount due for payment (BR-15).
    pub due: InvoiceAmount,
}

impl Default for DocumentTotals {
    /// Zero where mandatory, absent where optional.
    fn default() -> (t: DocumentTotals)
        ensures
            t.line_total@ == 0 && t.taxable_total@ == 0 && t.gross_total@ == 0 && t.due@ == 0,
            t.allowance_total is None && t.charge_total is None && t.vat_total is None,
            t.vat_total_accounting is None && t.paid is None && t.rounding is None,
    {
        DocumentTotals {
            line_total: InvoiceAmount::zero(),
            allowance_total: None,
            charge_total: None,
            taxable_total: InvoiceAmount::zero(),
            vat_total: None,
            vat_total_accounting: None,
            gross_total: InvoiceAmount::zero(),
            paid: None,
            rounding: None,
            due: InvoiceAmount::zero(),
        }
    }
}


// ── Invoice ───────────────────────────────────────────────────────────────────

/// An EN 16931 core invoice.
///
/// Fields are public: this is a data record, and both a builder and a parser
/// need to populate it. Validity is a report over the whole document, not a
/// property of the type.
#[derive(Debug, Clone, PartialEq, Eq)]
#[non_exhaustive]
pub struct Invoice {
    /// Whether this is an invoice or a credit note.
    pub kind: DocumentKind,
    /// BT-24 — **mandatory** specification identifier (BR-01).
    pub specification_id: Option<String>,
    /// BT-23 — business process type.
    pub business_process: Option<String>,
    /// BT-1 — **mandatory** invoice number (BR-02).
    pub number: Option<String>,
    /// BT-2 — **mandatory** issue date (BR-03).
    pub issue_date: Option<Date>,
    /// BT-3 — **mandatory** invoice type code (BR-04).
    pub type_code: Option<Code>,
    /// BT-5 — **mandatory** invoice currency code (BR-05).
    pub currency: Option<Code>,
    /// BT-6 — VAT accounting currency code.
    pub vat_accounting_currency: Option<Code>,
    /// BT-7 — value added tax point date. Exclusive with BT-8 (BR-CO-03).
    pub vat_point_date: Option<Date>,
    /// BT-8 — value added tax point date code.
    pub vat_point_date_code: Option<Code>,
    /// BT-9 — payment due date.
    pub due_date: Option<Date>,
    /// BT-10 — buyer reference.
    pub buyer_reference: Option<String>,
    /// BT-11 — project reference.
    pub project_reference: Option<DocumentReference>,
    /// BT-12 — contract reference.
    pub contract_reference: Option<DocumentReference>,
    /// BT-13 — purchase order reference.
    pub purchase_order_reference: Option<DocumentReference>,
    /// BT-14 — sales order reference.
    pub sales_order_reference: Option<DocumentReference>,
    /// BT-15 — receiving advice reference.
    pub receiving_advice_reference: Option<DocumentReference>,
    /// BT-16 — despatch advice reference.
    pub despatch_advice_reference: Option<DocumentReference>,
    /// BT-17 — tender or lot reference.
    pub tender_reference: Option<DocumentReference>,
    /// BT-18 — invoiced object identifier, at document level.
    pub object_identifier: Option<Identifier>,
    /// BT-19 — buyer accounting reference.
    pub accounting_reference: Option<String>,
    /// BT-20 — payment terms.
    pub payment_terms: Option<String>,
    /// BG-1 — invoice notes.
    pub notes: Vec<InvoiceNote>,
    /// BG-3 — preceding invoice references.
    pub preceding_invoices: Vec<PrecedingInvoice>,
    /// BG-4 — the seller.
    pub seller: Party,
    /// BG-7 — the buyer.
    pub buyer: Party,
    /// BG-10 — the payee.
    pub payee: Option<Payee>,
    /// BG-11 — the seller's tax representative.
    pub tax_representative: Option<TaxRepresentative>,
    /// BG-13 — delivery information.
    pub delivery: Option<Delivery>,
    /// BG-14 — invoicing period.
    pub invoicing_period: Option<Period>,
    /// BG-16 — payment instructions.
    pub payment: Option<PaymentInstructions>,
    /// BG-20 — document level allowances.
    pub allowances: Vec<DocumentAllowanceCharge>,
    /// BG-21 — document level charges.
    pub charges: Vec<DocumentAllowanceCharge>,
    /// BG-23 — VAT breakdown. At least one (BR-CO-18).
    pub vat_breakdown: Vec<VatBreakdown>,
    /// BG-24 — additional supporting documents.
    pub attachments: Vec<SupportingDocument>,
    /// BG-25 — invoice lines. At least one (BR-16).
    pub lines: Vec<InvoiceLine>,
    /// BG-22 — document totals.
    pub totals: DocumentTotals,
}

/// Whether `inv` has nothing in it but zero mandatory totals.
pub open spec fn is_empty_invoice(inv: Invoice) -> bool {
    &&& inv.kind == DocumentKind::Invoice
    &&& inv.specification_id is None && inv.business_process is None && inv.number is None
    &&& inv.issue_date is None && inv.type_code is None && inv.currency is None
    &&& inv.vat_accounting_currency is None && inv.vat_point_date is None
    &&& inv.vat_point_date_code is None && inv.due_date is None && inv.buyer_reference is None
    &&& inv.project_reference is None && inv.contract_reference is None
    &&& inv.purchase_order_reference is None && inv.sales_order_reference is None
    &&& inv.receiving_advice_reference is None && inv.despatch_advice_reference is None
    &&& inv.tender_reference is None && inv.object_identifier is None
    &&& inv.accounting_reference is None && inv.payment_terms is None
    &&& inv.notes@.len() == 0 && inv.preceding_invoices@.len() == 0
    &&& inv.payee is None && inv.tax_representative is None && inv.delivery is None
    &&& inv.invoicing_period is None && inv.payment is None
    &&& inv.allowances@.len() == 0 && inv.charges@.len() == 0
    &&& inv.vat_breakdown@.len() == 0 && inv.attachments@.len() == 0 && inv.lines@.len() == 0
    &&& inv.seller.name is None && inv.buyer.name is None
    &&& inv.totals.line_total@ == 0 && inv.totals.due@ == 0 && inv.totals.vat_total is None
}

impl Default for Invoice {
    /// An invoice with nothing filled in — what a parser starts from.
    fn default() -> (inv: Invoice)
        ensures
            is_empty_invoice(inv),
    {
        Invoice {
            kind: DocumentKind::Invoice,
            specification_id: None,
            business_process: None,
            number: None,
            issue_date: None,
            type_code: None,
            currency: None,
            vat_accounting_currency: None,
            vat_point_date: None,
            vat_point_date_code: None,
            due_date: None,
            buyer_reference: None,
            project_reference: None,
            contract_reference: None,
            purchase_order_reference: None,
            sales_order_reference: None,
            receiving_advice_reference: None,
            despatch_advice_reference: None,
            tender_reference: None,
            object_identifier: None,
            accounting_reference: None,
            payment_terms: None,
            notes: Vec::new(),
            preceding_invoices: Vec::new(),
            seller: Party::default(),
            buyer: Party::default(),
            payee: None,
            tax_representative: None,
            delivery: None,
            invoicing_period: None,
            payment: None,
            allowances: Vec::new(),
            charges: Vec::new(),
            vat_breakdown: Vec::new(),
            attachments: Vec::new(),
            lines: Vec::new(),
            totals: DocumentTotals::default(),
        }
    }
}

/// A copy of a list of preceding-invoice references.
fn copy_preceding(v: &Vec<PrecedingInvoice>) -> (r: Vec<PrecedingInvoice>)
    ensures
        r@ == v@,
{
    let r = v.clone();
    assert(r@ =~= v@);
    r
}

/// The credit note [`Invoice::to_credit_note`] makes of `inv`, as far as
/// the fields the note carries over unchanged: each equal to the invoice's,
/// the lists element for element, and the parties, payment instructions,
/// lines and supporting documents stating the same.
pub open spec fn carries_over(inv: Invoice, note: Invoice) -> bool {
    &&& note.specification_id == inv.specification_id
    &&& note.business_process == inv.business_process
    &&& note.currency == inv.currency
    &&& note.vat_accounting_currency == inv.vat_accounting_currency
    &&& note.vat_point_date == inv.vat_point_date
    &&& note.vat_point_date_code == inv.vat_point_date_code
    &&& note.due_date == inv.due_date
    &&& note.buyer_reference == inv.buyer_reference
    &&& note.project_reference == inv.project_reference
    &&& note.contract_reference == inv.contract_reference
    &&& note.purchase_order_reference == inv.purchase_order_reference
    &&& note.sales_order_reference == inv.sales_order_reference
    &&& note.receiving_advice_reference == inv.receiving_advice_reference
    &&& note.despatch_advice_reference == inv.despatch_advice_reference
    &&& note.tender_reference == inv.tender_reference
    &&& note.object_identifier == inv.object_identifier
    &&& note.accounting_reference == inv.accounting_reference
    &&& note.payment_terms == inv.payment_terms
    &&& note.invoicing_period == inv.invoicing_period
    &&& note.totals == inv.totals
    &&& same_party(inv.seller, note.seller) && same_party(inv.buyer, note.buyer)
    &&& note.payee == inv.payee && note.tax_representative == inv.tax_representative
    &&& note.delivery == inv.delivery
    &&& match (inv.payment, note.payment) {
        (Some(a), Some(b)) => same_payment(a, b),
        (None, None) => true,
        _ => false,
    }
    &&& note.notes@ == inv.notes@
    &&& note.allowances@ == inv.allowances@
    &&& note.charges@ == inv.charges@
    &&& note.vat_breakdown@ == inv.vat_breakdown@
    &&& note.attachments@.len() == inv.attachments@.len()
    &&& forall|i: int|
        0 <= i < inv.attachments@.len() ==> same_supporting(#[trigger] inv.attachments@[i], note.attachments@[i])
    &&& note.lines@.len() == inv.lines@.len()
    &&& forall|i: int| 0 <= i < inv.lines@.len() ==> same_line(#[trigger] inv.lines@[i], note.lines@[i])
}

impl Invoice {
    /// Start building an invoice, naming BT-24, BT-1, BT-2, BT-3 and BT-5 —
    /// the terms BR-01 … BR-05 require unconditionally.
    pub fn builder(
        specification_id: &str,
        number: &str,
        issue_date: Date,
        type_code: &str,
        currency: &str,
    ) -> (b: InvoiceBuilder)
        ensures
            b@.specification_id matches Some(s) && s@ == specification_id@,
            b@.number matches Some(n) && n@ == number@,
            b@.issue_date == Some(issue_date),
            b@.type_code matches Some(c) && c@ == type_code@,
            b@.currency matches Some(c) && c@ == currency@,
            b@ == (Invoice {
                specification_id: b@.specification_id,
                number: b@.number,
                issue_date: b@.issue_date,
                type_code: b@.type_code,
                currency: b@.currency,
                ..b@
            }),
            is_empty_invoice(
                Invoice {
                    specification_id: None,
                    number: None,
                    issue_date: None,
                    type_code: None,
                    currency: None,
                    ..b@
                },
            ),
    {
        let mut inv = Invoice::default();
        inv.specification_id = Some(owned(specification_id));
        inv.number = Some(owned(number));
        inv.issue_date = Some(issue_date);
        inv.type_code = Some(Code::new(type_code));
        inv.currency = Some(Code::new(currency));
        InvoiceBuilder { inv }
    }

    /// Turn this invoice into the credit note that cancels it — a German
    /// *Stornorechnung* — without re-billing.
    ///
    /// Four things change: the kind becomes a credit note, BT-3 becomes
    /// `381`, BT-1 and BT-2 are the caller's, and BG-3 names the original's
    /// BT-1 and BT-2. The amounts are **not** negated: a credit note states
    /// what is credited as a positive figure. An invoice with no (or a blank)
    /// BT-1 keeps its own BG-3, rather than gaining an empty reference that
    /// would fail BR-55.
    pub fn to_credit_note(&self, number: &str, issue_date: Date) -> (note: Invoice)
        ensures
            note.kind == DocumentKind::CreditNote,
            note.type_code matches Some(c) && c@ == "381"@,
            note.number matches Some(n) && n@ == number@,
            note.issue_date == Some(issue_date),
            match self.number {
                Some(n) => if blank(n@) {
                    note.preceding_invoices@ == self.preceding_invoices@
                } else {
                    &&& note.preceding_invoices@.len() == 1
                    &&& note.preceding_invoices@[0].reference@ == n@
                    &&& note.preceding_invoices@[0].issue_date == self.issue_date
                },
                None => note.preceding_invoices@ == self.preceding_invoices@,
            },
            carries_over(*self, note),
    {
        let preceding_invoices: Vec<PrecedingInvoice> = match &self.number {
            Some(n) => if is_blank_str(n.as_str()) {
                copy_preceding(&self.preceding_invoices)
            } else {
                vec![
                    PrecedingInvoice {
                        reference: DocumentReference::new(n.as_str()),
                        issue_date: self.issue_date,
                    },
                ]
            },
            None => copy_preceding(&self.preceding_invoices),
        };
        Invoice {
            kind: DocumentKind::CreditNote,
            specification_id: self.specification_id.clone(),
            business_process: self.business_process.clone(),
            number: Some(owned(number)),
            issue_date: Some(issue_date),
            type_code: Some(Code::new("381")),
            currency: self.currency.clone(),
            vat_accounting_currency: self.vat_accounting_currency.clone(),
            vat_point_date: self.vat_point_date,
            vat_point_date_code: self.vat_point_date_code.clone(),
            due_date: self.due_date,
            buyer_reference: self.buyer_reference.clone(),
            project_reference: self.project_reference.clone(),
            contract_reference: self.contract_reference.clone(),
            purchase_order_reference: self.purchase_order_reference.clone(),
            sales_order_reference: self.sales_order_reference.clone(),
            receiving_advice_reference: self.receiving_advice_reference.clone(),
            despatch_advice_reference: self.despatch_advice_reference.clone(),
            tender_reference: self.tender_reference.clone(),
            object_identifier: self.object_identifier.clone(),
            accounting_reference: self.accounting_reference.clone(),
            payment_terms: self.payment_terms.clone(),
            notes: self.notes.clone(),
            preceding_invoices,
            seller: self.seller.clone(),
            buyer: self.buyer.clone(),
            payee: self.payee.clone(),
            tax_representative: self.tax_representative.clone(),
            delivery: self.delivery.clone(),
            invoicing_period: self.invoicing_period,
            payment: self.payment.clone(),
            allowances: self.allowances.clone(),
            charges: self.charges.clone(),
            vat_breakdown: self.vat_breakdown.clone(),
            attachments: self.attachments.clone(),
            lines: self.lines.clone(),
            totals: self.totals,
        }
    }
}


// ── Builder ───────────────────────────────────────────────────────────────────

/// Fluent construction for [`Invoice`]. Obtain one from [`Invoice::builder`].
///
/// The builder does **not** validate: a builder that refused an invalid
/// invoice would leave a caller unable to ask *why* it is invalid.
#[derive(Debug, Clone)]
pub struct InvoiceBuilder {
    inv: Invoice,
}

impl View for InvoiceBuilder {
    type V = Invoice;

    /// The invoice being built.
    closed spec fn view(&self) -> Invoice {
        self.inv
    }
}

impl InvoiceBuilder {
    /// BT-9 — payment due date.
    pub fn due_date(self, value: Date) -> (b: InvoiceBuilder)
        ensures
            b@ == (Invoice { due_date: Some(value), ..self@ }),
    {
        let mut inv = self.inv;
        inv.due_date = Some(value);
        InvoiceBuilder { inv }
    }

    /// BT-20 — payment terms, as free text; with BT-9 one of the two ways to
    /// satisfy `BR-CO-25`.
    pub fn payment_terms(self, value: &str) -> (b: InvoiceBuilder)
        ensures
            b@.payment_terms matches Some(t) && t@ == value@,
            b@ == (Invoice { payment_terms: b@.payment_terms, ..self@ }),
    {
        let mut inv = self.inv;
        inv.payment_terms = Some(owned(value));
        InvoiceBuilder { inv }
    }

    /// BT-9 — a due date `days` after the issue date; none when there is no
    /// issue date or the result's year does not fit.
    pub fn due_in_days(self, days: i32) -> (b: InvoiceBuilder)
        ensures
            b@ == (Invoice { due_date: b@.due_date, ..self@ }),
            match self@.issue_date {
                Some(d) => match b@.due_date {
                    Some(e) => e.spec_epoch_day() == d.spec_epoch_day() + days,
                    None => forall|y: int, m: int, dd: int|
                        #![trigger crate::date::day_number(y, m, dd)]
                        crate::date::valid_ymd(y, m, dd) ==> crate::date::day_number(y, m, dd)
                            != d.spec_epoch_day() + days,
                },
                None => b@.due_date is None,
            },
    {
        let mut inv = self.inv;
        inv.due_date = match inv.issue_date {
            Some(d) => d.checked_add_days(days),
            None => None,
        };
        InvoiceBuilder { inv }
    }

    /// BG-13 — delivery information.
    pub fn delivery(self, value: Delivery) -> (b: InvoiceBuilder)
        ensures
            b@ == (Invoice { delivery: Some(value), ..self@ }),
    {
        let mut inv = self.inv;
        inv.delivery = Some(value);
        InvoiceBuilder { inv }
    }

    /// BG-14 — invoicing period.
    pub fn invoicing_period(self, value: Period) -> (b: InvoiceBuilder)
        ensures
            b@ == (Invoice { invoicing_period: Some(value), ..self@ }),
    {
        let mut inv = self.inv;
        inv.invoicing_period = Some(value);
        InvoiceBuilder { inv }
    }

    /// BG-16 — payment instructions.
    pub fn payment(self, value: PaymentInstructions) -> (b: InvoiceBuilder)
        ensures
            b@ == (Invoice { payment: Some(value), ..self@ }),
    {
        let mut inv = self.inv;
        inv.payment = Some(value);
        InvoiceBuilder { inv }
    }

    /// BT-6 — VAT accounting currency code.
    pub fn vat_accounting_currency(self, value: &str) -> (b: InvoiceBuilder)
        ensures
            b@.vat_accounting_currency matches Some(c) && c@ == value@,
            b@ == (Invoice { vat_accounting_currency: b@.vat_accounting_currency, ..self@ }),
    {
        let mut inv = self.inv;
        inv.vat_accounting_currency = Some(Code::new(value));
        InvoiceBuilder { inv }
    }

    /// BT-10 — buyer reference; in Germany, where the Leitweg-ID goes.
    pub fn buyer_reference(self, value: &str) -> (b: InvoiceBuilder)
        ensures
            b@.buyer_reference matches Some(t) && t@ == value@,
            b@ == (Invoice { buyer_reference: b@.buyer_reference, ..self@ }),
    {
        let mut inv = self.inv;
        inv.buyer_reference = Some(owned(value));
        InvoiceBuilder { inv }
    }

    /// BT-23 — the business process this invoice belongs to.
    pub fn business_process(self, value: &str) -> (b: InvoiceBuilder)
        ensures
            b@.business_process matches Some(t) && t@ == value@,
            b@ == (Invoice { business_process: b@.business_process, ..self@ }),
    {
        let mut inv = self.inv;
        inv.business_process = Some(owned(value));
        InvoiceBuilder { inv }
    }

    /// BT-18 — invoiced object identifier: a meter point, a vehicle.
    pub fn object_identifier(self, value: Identifier) -> (b: InvoiceBuilder)
        ensures
            b@ == (Invoice { object_identifier: Some(value), ..self@ }),
    {
        let mut inv = self.inv;
        inv.object_identifier = Some(value);
        InvoiceBuilder { inv }
    }

    /// BT-13 — purchase order reference.
    pub fn purchase_order_reference(self, value: DocumentReference) -> (b: InvoiceBuilder)
        ensures
            b@ == (Invoice { purchase_order_reference: Some(value), ..self@ }),
    {
        let mut inv = self.inv;
        inv.purchase_order_reference = Some(value);
        InvoiceBuilder { inv }
    }

    /// BT-12 — contract reference.
    pub fn contract_reference(self, value: DocumentReference) -> (b: InvoiceBuilder)
        ensures
            b@ == (Invoice { contract_reference: Some(value), ..self@ }),
    {
        let mut inv = self.inv;
        inv.contract_reference = Some(value);
        InvoiceBuilder { inv }
    }

    /// BT-11 — project reference.
    pub fn project_reference(self, value: DocumentReference) -> (b: InvoiceBuilder)
        ensures
            b@ == (Invoice { project_reference: Some(value), ..self@ }),
    {
        let mut inv = self.inv;
        inv.project_reference = Some(value);
        InvoiceBuilder { inv }
    }

    /// BT-19 — buyer accounting reference.
    pub fn accounting_reference(self, value: &str) -> (b: InvoiceBuilder)
        ensures
            b@.accounting_reference matches Some(t) && t@ == value@,
            b@ == (Invoice { accounting_reference: b@.accounting_reference, ..self@ }),
    {
        let mut inv = self.inv;
        inv.accounting_reference = Some(owned(value));
        InvoiceBuilder { inv }
    }

    /// BG-4 — the seller.
    pub fn seller(self, seller: Party) -> (b: InvoiceBuilder)
        ensures
            b@ == (Invoice { seller, ..self@ }),
    {
        let mut inv = self.inv;
        inv.seller = seller;
        InvoiceBuilder { inv }
    }

    /// BG-7 — the buyer.
    pub fn buyer(self, buyer: Party) -> (b: InvoiceBuilder)
        ensures
            b@ == (Invoice { buyer, ..self@ }),
    {
        let mut inv = self.inv;
        inv.buyer = buyer;
        InvoiceBuilder { inv }
    }

    /// BG-10 — the payee.
    pub fn payee(self, value: Payee) -> (b: InvoiceBuilder)
        ensures
            b@ == (Invoice { payee: Some(value), ..self@ }),
    {
        let mut inv = self.inv;
        inv.payee = Some(value);
        InvoiceBuilder { inv }
    }

    /// BG-11 — the seller's tax representative.
    pub fn tax_representative(self, value: TaxRepresentative) -> (b: InvoiceBuilder)
        ensures
            b@ == (Invoice { tax_representative: Some(value), ..self@ }),
    {
        let mut inv = self.inv;
        inv.tax_representative = Some(value);
        InvoiceBuilder { inv }
    }

    /// Append a BG-25 invoice line.
    pub fn line(self, line: InvoiceLine) -> (b: InvoiceBuilder)
        ensures
            b@.lines@ == self@.lines@.push(line),
            b@ == (Invoice { lines: b@.lines, ..self@ }),
    {
        let mut inv = self.inv;
        inv.lines.push(line);
        InvoiceBuilder { inv }
    }

    /// Append a BG-23 VAT breakdown entry.
    pub fn vat_breakdown(self, entry: VatBreakdown) -> (b: InvoiceBuilder)
        ensures
            b@.vat_breakdown@ == self@.vat_breakdown@.push(entry),
            b@ == (Invoice { vat_breakdown: b@.vat_breakdown, ..self@ }),
    {
        let mut inv = self.inv;
        inv.vat_breakdown.push(entry);
        InvoiceBuilder { inv }
    }

    /// Append a BG-20 document level allowance.
    pub fn allowance(self, allowance: DocumentAllowanceCharge) -> (b: InvoiceBuilder)
        ensures
            b@.allowances@ == self@.allowances@.push(allowance),
            b@ == (Invoice { allowances: b@.allowances, ..self@ }),
    {
        let mut inv = self.inv;
        inv.allowances.push(allowance);
        InvoiceBuilder { inv }
    }

    /// Append a BG-21 document level charge.
    pub fn charge(self, charge: DocumentAllowanceCharge) -> (b: InvoiceBuilder)
        ensures
            b@.charges@ == self@.charges@.push(charge),
            b@ == (Invoice { charges: b@.charges, ..self@ }),
    {
        let mut inv = self.inv;
        inv.charges.push(charge);
        InvoiceBuilder { inv }
    }

    /// Mark this document a credit note.
    pub fn credit_note(self) -> (b: InvoiceBuilder)
        ensures
            b@ == (Invoice { kind: DocumentKind::CreditNote, ..self@ }),
    {
        let mut inv = self.inv;
        inv.kind = DocumentKind::CreditNote;
        InvoiceBuilder { inv }
    }

    /// Append a BG-1 invoice note (BT-22), with no subject code.
    pub fn note(self, note: &str) -> (b: InvoiceBuilder)
        ensures
            b@.notes@.len() == self@.notes@.len() + 1,
            b@.notes@.drop_last() == self@.notes@,
            b@.notes@.last().subject_code is None,
            b@.notes@.last().note matches Some(t) && t@ == note@,
            b@ == (Invoice { notes: b@.notes, ..self@ }),
    {
        let mut inv = self.inv;
        inv.notes.push(InvoiceNote::new(note));
        InvoiceBuilder { inv }
    }

    /// Append a BG-1 invoice note with a BT-21 subject code.
    pub fn coded_note(self, note: InvoiceNote) -> (b: InvoiceBuilder)
        ensures
            b@.notes@ == self@.notes@.push(note),
            b@ == (Invoice { notes: b@.notes, ..self@ }),
    {
        let mut inv = self.inv;
        inv.notes.push(note);
        InvoiceBuilder { inv }
    }

    /// BG-22 — the document totals.
    pub fn totals(self, totals: DocumentTotals) -> (b: InvoiceBuilder)
        ensures
            b@ == (Invoice { totals, ..self@ }),
    {
        let mut inv = self.inv;
        inv.totals = totals;
        InvoiceBuilder { inv }
    }

    /// Finish, stating the totals yourself: nothing is computed.
    pub fn build(self) -> (inv: Invoice)
        ensures
            inv == self@,
    {
        self.inv
    }
}


// ── What a document holds ─────────────────────────────────────────────────────

/// One occurrence path per element of a repeating group of `n` elements.
pub open spec fn occurrences(group: Group, n: nat) -> Seq<Path> {
    Seq::new(n, |i: int| Path { group, index: Some(i as usize), term: None })
}

/// Whether `inv` carries VAT category `c` on a line, an allowance, a charge or
/// a breakdown group.
pub open spec fn uses_category(inv: Invoice, c: VatCategory) -> bool {
    ||| exists|i: int|
        0 <= i < inv.lines@.len() && category_of_code(#[trigger] inv.lines@[i].vat.category@)
            == Some(c)
    ||| exists|i: int|
        0 <= i < inv.allowances@.len() && category_of_code(
            #[trigger] inv.allowances@[i].vat.category@,
        ) == Some(c)
    ||| exists|i: int|
        0 <= i < inv.charges@.len() && category_of_code(#[trigger] inv.charges@[i].vat.category@)
            == Some(c)
    ||| exists|i: int|
        0 <= i < inv.vat_breakdown@.len() && category_of_code(
            #[trigger] inv.vat_breakdown@[i].category@,
        ) == Some(c)
}

/// The position of a category in its declared order, which is the order
/// [`Invoice::categories_used`] reports in.
pub open spec fn category_rank(c: VatCategory) -> int {
    match c {
        VatCategory::Standard => 0,
        VatCategory::ZeroRated => 1,
        VatCategory::Exempt => 2,
        VatCategory::ReverseCharge => 3,
        VatCategory::IntraCommunity => 4,
        VatCategory::Export => 5,
        VatCategory::OutOfScope => 6,
        VatCategory::CanaryIslands => 7,
        VatCategory::CeutaMelilla => 8,
        VatCategory::SplitPayment => 9,
    }
}

/// Append one occurrence path per index below `n`.
fn push_occurrences(v: &mut Vec<Path>, group: Group, n: usize)
    ensures
        final(v)@ == old(v)@ + occurrences(group, n as nat),
{
    let ghost start = v@;
    let mut i: usize = 0;
    while i < n
        invariant
            i <= n,
            v@ == start + occurrences(group, i as nat),
        decreases n - i,
    {
        v.push(Path::at(group, i));
        assert(occurrences(group, (i + 1) as nat) =~= occurrences(group, i as nat).push(
            Path { group, index: Some(i), term: None },
        ));
        i = i + 1;
    }
}

impl Invoice {
    /// Every path a rule might want to iterate: the totals, then each line,
    /// breakdown group, allowance and charge.
    pub fn occupied_groups(&self) -> (v: Vec<Path>)
        ensures
            v@ == seq![Path { group: Group::Totals, index: None, term: None }] + occurrences(
                Group::Line,
                self.lines@.len(),
            ) + occurrences(Group::VatBreakdown, self.vat_breakdown@.len()) + occurrences(
                Group::DocumentAllowance,
                self.allowances@.len(),
            ) + occurrences(Group::DocumentCharge, self.charges@.len()),
    {
        let mut v: Vec<Path> = Vec::new();
        v.push(Path::group(Group::Totals));
        push_occurrences(&mut v, Group::Line, self.lines.len());
        push_occurrences(&mut v, Group::VatBreakdown, self.vat_breakdown.len());
        push_occurrences(&mut v, Group::DocumentAllowance, self.allowances.len());
        push_occurrences(&mut v, Group::DocumentCharge, self.charges.len());
        v
    }

    /// Whether the document carries category `c` anywhere.
    fn uses(&self, c: VatCategory) -> (b: bool)
        ensures
            b == uses_category(*self, c),
    {
        let mut i: usize = 0;
        while i < self.lines.len()
            invariant
                i <= self.lines@.len(),
                forall|k: int| 0 <= k < i ==> category_of_code(#[trigger] self.lines@[k].vat.category@)
                    != Some(c),
            decreases self.lines.len() - i,
        {
            if self.lines[i].vat.semantics() == Some(c) {
                return true;
            }
            i = i + 1;
        }
        let mut i: usize = 0;
        while i < self.allowances.len()
            invariant
                i <= self.allowances@.len(),
                forall|k: int| 0 <= k < i ==> category_of_code(
                    #[trigger] self.allowances@[k].vat.category@,
                ) != Some(c),
            decreases self.allowances.len() - i,
        {
            if self.allowances[i].vat.semantics() == Some(c) {
                return true;
            }
            i = i + 1;
        }
        let mut i: usize = 0;
        while i < self.charges.len()
            invariant
                i <= self.charges@.len(),
                forall|k: int| 0 <= k < i ==> category_of_code(
                    #[trigger] self.charges@[k].vat.category@,
                ) != Some(c),
            decreases self.charges.len() - i,
        {
            if self.charges[i].vat.semantics() == Some(c) {
                return true;
            }
            i = i + 1;
        }
        let mut i: usize = 0;
        while i < self.vat_breakdown.len()
            invariant
                i <= self.vat_breakdown@.len(),
                forall|k: int| 0 <= k < i ==> category_of_code(
                    #[trigger] self.vat_breakdown@[k].category@,
                ) != Some(c),
            decreases self.vat_breakdown.len() - i,
        {
            if self.vat_breakdown[i].semantics() == Some(c) {
                return true;
            }
            i = i + 1;
        }
        false
    }

    /// The VAT categories present anywhere in the document, each once, in
    /// their declared order (`S`, `Z`, `E`, `AE`, `K`, `G`, `O`, `L`, `M`,
    /// `B`). Codes outside UNCL 5305 are not categories and are skipped.
    pub fn categories_used(&self) -> (v: Vec<VatCategory>)
        ensures
            forall|c: VatCategory| v@.contains(c) <==> uses_category(*self, c),
            forall|i: int, j: int|
                0 <= i < j < v@.len() ==> category_rank(v@[i]) < category_rank(v@[j]),
    {
        let order = vec![
            VatCategory::Standard,
            VatCategory::ZeroRated,
            VatCategory::Exempt,
            VatCategory::ReverseCharge,
            VatCategory::IntraCommunity,
            VatCategory::Export,
            VatCategory::OutOfScope,
            VatCategory::CanaryIslands,
            VatCategory::CeutaMelilla,
            VatCategory::SplitPayment,
        ];
        let mut v: Vec<VatCategory> = Vec::new();
        let mut k: usize = 0;
        while k < order.len()
            invariant
                k <= order@.len() == 10,
                forall|m: int| 0 <= m < 10 ==> category_rank(#[trigger] order@[m]) == m,
                forall|c: VatCategory|
                    v@.contains(c) <==> (uses_category(*self, c) && category_rank(c) < k),
                forall|i: int, j: int|
                    0 <= i < j < v@.len() ==> category_rank(v@[i]) < category_rank(v@[j]),
                forall|i: int| 0 <= i < v@.len() ==> category_rank(#[trigger] v@[i]) < k,
            decreases order.len() - k,
        {
            let c = order[k];
            proof {
                assert(category_rank(order@[k as int]) == k);
                assert forall|d: VatCategory| category_rank(d) == k implies d == c by {
                }
            }
            if self.uses(c) {
                let ghost old_v = v@;
                v.push(c);
                proof {
                    assert forall|d: VatCategory| v@.contains(d) <==> (uses_category(*self, d)
                        && category_rank(d) < k + 1) by {
                        if v@.contains(d) {
                            let i = choose|i: int| 0 <= i < v@.len() && v@[i] == d;
                            if i < old_v.len() {
                                assert(old_v.contains(d));
                            }
                        }
                        if uses_category(*self, d) && category_rank(d) < k + 1 {
                            if category_rank(d) < k {
                                let i = choose|i: int| 0 <= i < old_v.len() && old_v[i] == d;
                                assert(v@[i] == d);
                            } else {
                                assert(v@[old_v.len() as int] == d);
                            }
                        }
                    }
                }
            } else {
                proof {
                    assert forall|d: VatCategory| v@.contains(d) <==> (uses_category(*self, d)
                        && category_rank(d) < k + 1) by {
                        if v@.contains(d) {
                            let i = choose|i: int| 0 <= i < v@.len() && v@[i] == d;
                            assert(category_rank(v@[i]) < k);
                        }
                    }
                }
            }
            k = k + 1;
        }
        proof {
            assert forall|c: VatCategory| v@.contains(c) <==> uses_category(*self, c) by {
                assert(category_rank(c) < 10);
            }
        }
        v
    }
}


impl InvoiceBuilder {
    /// Finish, deriving BG-23 and BG-22 from the lines with every default.
    /// Anything set with [`totals`](Self::totals) or
    /// [`vat_breakdown`](Self::vat_breakdown) is replaced; exemption reasons
    /// on an existing BG-23 are preserved.
    pub fn build_reconciled(self) -> (r: Result<Invoice, ReconcileError>)
        ensures
            exists|res: Result<Reconciled, ReconcileError>|
                reconcile_outcome(Seq::empty(), None, None, None, self@, res) && match res {
                    Ok(rec) => r matches Ok(built) && built == (Invoice {
                        vat_breakdown: rec.vat_breakdown,
                        totals: rec.totals,
                        ..self@
                    }),
                    Err(e) => r == Err::<Invoice, ReconcileError>(e),
                },
    {
        let mut inv = self.inv;
        let ghost before = inv;
        let out = reconcile(&mut inv);
        let ghost res = choose|res: Result<Reconciled, ReconcileError>|
                reconcile_outcome(Seq::empty(), None, None, None, before, res) && match res {
                    Ok(rec) => out is Ok && inv == (Invoice {
                        vat_breakdown: rec.vat_breakdown,
                        totals: rec.totals,
                        ..before
                    }),
                    Err(e) => out == Err::<(), ReconcileError>(e),
                };
        match out {
            Ok(()) => {
                assert(res is Ok);
                assert(reconcile_outcome(Seq::empty(), None, None, None, self@, res));
                let r: Result<Invoice, ReconcileError> = Ok(inv);
                assert(r matches Ok(i) && i == (Invoice {
                    vat_breakdown: res->Ok_0.vat_breakdown,
                    totals: res->Ok_0.totals,
                    ..before
                }));
                assert(match res {
                    Ok(rec) => r matches Ok(built) && built == (Invoice {
                        vat_breakdown: rec.vat_breakdown,
                        totals: rec.totals,
                        ..self@
                    }),
                    Err(e) => r == Err::<Invoice, ReconcileError>(e),
                });
                r
            },
            Err(e) => Err(e),
        }
    }

    /// As [`build_reconciled`](Self::build_reconciled), with a configured
    /// [`Reconciler`] — for a prepayment, a rounding amount, or the exemption
    /// reasons the category families require.
    pub fn build_reconciled_with(self, reconciler: &Reconciler) -> (r: Result<
        Invoice,
        ReconcileError,
    >)
        ensures
            exists|res: Result<Reconciled, ReconcileError>|
                reconciler.outcome(self@, res) && match res {
                    Ok(rec) => r matches Ok(built) && built == (Invoice {
                        vat_breakdown: rec.vat_breakdown,
                        totals: rec.totals,
                        ..self@
                    }),
                    Err(e) => r == Err::<Invoice, ReconcileError>(e),
                },
    {
        let mut inv = self.inv;
        let ghost before = inv;
        let out = reconciler.apply(&mut inv);
        let ghost res = choose|res: Result<Reconciled, ReconcileError>|
                reconciler.outcome(before, res) && match res {
                    Ok(rec) => out is Ok && inv == (Invoice {
                        vat_breakdown: rec.vat_breakdown,
                        totals: rec.totals,
                        ..before
                    }),
                    Err(e) => out == Err::<(), ReconcileError>(e),
                };
        match out {
            Ok(()) => {
                assert(res is Ok);
                assert(reconciler.outcome(self@, res));
                let r: Result<Invoice, ReconcileError> = Ok(inv);
                assert(r matches Ok(i) && i == (Invoice {
                    vat_breakdown: res->Ok_0.vat_breakdown,
                    totals: res->Ok_0.totals,
                    ..before
                }));
                assert(match res {
                    Ok(rec) => r matches Ok(built) && built == (Invoice {
                        vat_breakdown: rec.vat_breakdown,
                        totals: rec.totals,
                        ..self@
                    }),
                    Err(e) => r == Err::<Invoice, ReconcileError>(e),
                });
                r
            },
            Err(e) => Err(e),
        }
    }
}


// ── Copies ────────────────────────────────────────────────────────────────────

impl Clone for PostalAddress {
    /// The same value.
    fn clone(&self) -> (r: PostalAddress)
        ensures
            r == *self,
    {
        PostalAddress {
            line1: self.line1.clone(),
            line2: self.line2.clone(),
            line3: self.line3.clone(),
            city: self.city.clone(),
            post_code: self.post_code.clone(),
            subdivision: self.subdivision.clone(),
            country: self.country.clone(),
        }
    }
}

impl Clone for Contact {
    /// The same value.
    fn clone(&self) -> (r: Contact)
        ensures
            r == *self,
    {
        Contact {
            name: self.name.clone(),
            phone: self.phone.clone(),
            email: self.email.clone(),
        }
    }
}

impl Clone for InvoiceNote {
    /// The same value.
    fn clone(&self) -> (r: InvoiceNote)
        ensures
            r == *self,
    {
        InvoiceNote {
            subject_code: self.subject_code.clone(),
            note: self.note.clone(),
        }
    }
}

impl Clone for Payee {
    /// The same value.
    fn clone(&self) -> (r: Payee)
        ensures
            r == *self,
    {
        Payee {
            name: self.name.clone(),
            identifier: self.identifier.clone(),
            legal_registration: self.legal_registration.clone(),
        }
    }
}

impl Clone for TaxRepresentative {
    /// The same value.
    fn clone(&self) -> (r: TaxRepresentative)
        ensures
            r == *self,
    {
        TaxRepresentative {
            name: self.name.clone(),
            vat_identifier: self.vat_identifier.clone(),
            address: self.address.clone(),
        }
    }
}

impl Clone for PrecedingInvoice {
    /// The same value.
    fn clone(&self) -> (r: PrecedingInvoice)
        ensures
            r == *self,
    {
        PrecedingInvoice {
            reference: self.reference.clone(),
            issue_date: self.issue_date,
        }
    }
}

impl Clone for CreditTransfer {
    /// The same value.
    fn clone(&self) -> (r: CreditTransfer)
        ensures
            r == *self,
    {
        CreditTransfer {
            account_identifier: self.account_identifier.clone(),
            account_name: self.account_name.clone(),
            provider_identifier: self.provider_identifier.clone(),
        }
    }
}

impl Clone for PaymentCard {
    /// The same value.
    fn clone(&self) -> (r: PaymentCard)
        ensures
            r == *self,
    {
        PaymentCard {
            primary_account_number: self.primary_account_number.clone(),
            holder_name: self.holder_name.clone(),
        }
    }
}

impl Clone for DirectDebit {
    /// The same value.
    fn clone(&self) -> (r: DirectDebit)
        ensures
            r == *self,
    {
        DirectDebit {
            mandate_reference: self.mandate_reference.clone(),
            creditor_identifier: self.creditor_identifier.clone(),
            debited_account: self.debited_account.clone(),
        }
    }
}

impl Clone for Delivery {
    /// The same value.
    fn clone(&self) -> (r: Delivery)
        ensures
            r == *self,
    {
        Delivery {
            party_name: self.party_name.clone(),
            location: self.location.clone(),
            date: self.date,
            address: self.address.clone(),
        }
    }
}

impl Clone for VatBreakdown {
    /// The same value.
    fn clone(&self) -> (r: VatBreakdown)
        ensures
            r == *self,
    {
        VatBreakdown {
            taxable_amount: self.taxable_amount,
            tax_amount: self.tax_amount,
            category: self.category.clone(),
            rate: self.rate,
            exemption_reason: self.exemption_reason.clone(),
            exemption_reason_code: self.exemption_reason_code.clone(),
        }
    }
}

impl Clone for DocumentAllowanceCharge {
    /// The same value.
    fn clone(&self) -> (r: DocumentAllowanceCharge)
        ensures
            r == *self,
    {
        DocumentAllowanceCharge {
            amount: self.amount,
            base_amount: self.base_amount,
            percentage: self.percentage,
            vat: self.vat.clone(),
            reason: self.reason.clone(),
            reason_code: self.reason_code.clone(),
        }
    }
}

impl Clone for LineAllowanceCharge {
    /// The same value.
    fn clone(&self) -> (r: LineAllowanceCharge)
        ensures
            r == *self,
    {
        LineAllowanceCharge {
            amount: self.amount,
            base_amount: self.base_amount,
            percentage: self.percentage,
            reason: self.reason.clone(),
            reason_code: self.reason_code.clone(),
        }
    }
}

impl Clone for PriceDetails {
    /// The same value.
    fn clone(&self) -> (r: PriceDetails)
        ensures
            r == *self,
    {
        PriceDetails {
            net_price: self.net_price,
            price_discount: self.price_discount,
            gross_price: self.gross_price,
            base_quantity: self.base_quantity,
            base_quantity_code: self.base_quantity_code.clone(),
        }
    }
}

impl Clone for ItemAttribute {
    /// The same value.
    fn clone(&self) -> (r: ItemAttribute)
        ensures
            r == *self,
    {
        ItemAttribute {
            name: self.name.clone(),
            value: self.value.clone(),
        }
    }
}
/// `b` states what `a` does: every field equal, the lists element for element.
pub open spec fn same_party(a: Party, b: Party) -> bool {
    &&& b == (Party { identifiers: b.identifiers, ..a })
    &&& b.identifiers@ == a.identifiers@
}

impl Clone for Party {
    /// A party stating the same.
    fn clone(&self) -> (r: Party)
        ensures
            same_party(*self, r),
    {
        let identifiers = self.identifiers.clone();
        assert(identifiers@ =~= self.identifiers@);
        Party {
            name: self.name.clone(),
            trading_name: self.trading_name.clone(),
            identifiers,
            legal_registration: self.legal_registration.clone(),
            vat_identifier: self.vat_identifier.clone(),
            tax_registration: self.tax_registration.clone(),
            additional_legal_information: self.additional_legal_information.clone(),
            electronic_address: self.electronic_address.clone(),
            address: self.address.clone(),
            contact: self.contact.clone(),
        }
    }
}

/// `b` states what `a` does: every field equal, the lists element for element.
pub open spec fn same_item(a: Item, b: Item) -> bool {
    &&& b == (Item { classification_identifiers: b.classification_identifiers, attributes: b.attributes, ..a })
    &&& b.classification_identifiers@ == a.classification_identifiers@
    &&& b.attributes@ == a.attributes@
}

impl Clone for Item {
    /// An item stating the same.
    fn clone(&self) -> (r: Item)
        ensures
            same_item(*self, r),
    {
        let classification_identifiers = self.classification_identifiers.clone();
        let attributes = self.attributes.clone();
        assert(classification_identifiers@ =~= self.classification_identifiers@);
        assert(attributes@ =~= self.attributes@);
        Item {
            name: self.name.clone(),
            description: self.description.clone(),
            seller_identifier: self.seller_identifier.clone(),
            buyer_identifier: self.buyer_identifier.clone(),
            standard_identifier: self.standard_identifier.clone(),
            classification_identifiers,
            origin_country: self.origin_country.clone(),
            attributes,
        }
    }
}

/// `b` states what `a` does: every field equal, the allowances and charges
/// element for element, the item stating the same.
pub open spec fn same_line(a: InvoiceLine, b: InvoiceLine) -> bool {
    &&& b == (InvoiceLine { allowances: b.allowances, charges: b.charges, item: b.item, ..a })
    &&& b.allowances@ == a.allowances@
    &&& b.charges@ == a.charges@
    &&& same_item(a.item, b.item)
}

impl Clone for InvoiceLine {
    /// A line stating the same.
    fn clone(&self) -> (r: InvoiceLine)
        ensures
            same_line(*self, r),
    {
        let allowances = self.allowances.clone();
        let charges = self.charges.clone();
        assert(allowances@ =~= self.allowances@);
        assert(charges@ =~= self.charges@);
        InvoiceLine {
            id: self.id.clone(),
            note: self.note.clone(),
            order_line_reference: self.order_line_reference.clone(),
            accounting_reference: self.accounting_reference.clone(),
            object_identifier: self.object_identifier.clone(),
            quantity: self.quantity,
            unit_code: self.unit_code.clone(),
            net_amount: self.net_amount,
            period: self.period,
            allowances,
            charges,
            price: self.price.clone(),
            vat: self.vat.clone(),
            item: self.item.clone(),
        }
    }
}

/// `b` states what `a` does: the same variant, its accounts element for
/// element.
pub open spec fn same_means(a: PaymentMeans, b: PaymentMeans) -> bool {
    match (a, b) {
        (PaymentMeans::CreditTransfer(x), PaymentMeans::CreditTransfer(y)) => x@ == y@,
        (PaymentMeans::CreditTransfer(_), _) => false,
        _ => a == b,
    }
}

impl Clone for PaymentMeans {
    /// Means stating the same.
    fn clone(&self) -> (r: PaymentMeans)
        ensures
            same_means(*self, r),
    {
        match self {
            PaymentMeans::CreditTransfer(v) => {
                let w = v.clone();
                assert(w@ =~= v@);
                PaymentMeans::CreditTransfer(w)
            },
            PaymentMeans::Card(c) => PaymentMeans::Card(c.clone()),
            PaymentMeans::DirectDebit(d) => PaymentMeans::DirectDebit(d.clone()),
        }
    }
}

/// `b` states what `a` does: every field equal, the means stating the same.
pub open spec fn same_payment(a: PaymentInstructions, b: PaymentInstructions) -> bool {
    &&& b == (PaymentInstructions { means: b.means, ..a })
    &&& match (a.means, b.means) {
        (Some(x), Some(y)) => same_means(x, y),
        (None, None) => true,
        _ => false,
    }
}

impl Clone for PaymentInstructions {
    /// Instructions stating the same.
    fn clone(&self) -> (r: PaymentInstructions)
        ensures
            same_payment(*self, r),
    {
        let means = match &self.means {
            Some(m) => Some(m.clone()),
            None => None,
        };
        PaymentInstructions {
            means_code: self.means_code.clone(),
            means_text: self.means_text.clone(),
            remittance_information: self.remittance_information.clone(),
            means,
        }
    }
}

/// `b` states what `a` does: every field equal, the attachment with the same
/// content, mime code and filename.
pub open spec fn same_supporting(a: SupportingDocument, b: SupportingDocument) -> bool {
    &&& b == (SupportingDocument { attachment: b.attachment, ..a })
    &&& match (a.attachment, b.attachment) {
        (Some(x), Some(y)) => x@ == y@,
        (None, None) => true,
        _ => false,
    }
}

impl Clone for SupportingDocument {
    /// A supporting document stating the same.
    fn clone(&self) -> (r: SupportingDocument)
        ensures
            same_supporting(*self, r),
    {
        let attachment = match &self.attachment {
            Some(a) => Some(a.clone()),
            None => None,
        };
        SupportingDocument {
            reference: self.reference.clone(),
            description: self.description.clone(),
            uri: self.uri.clone(),
            attachment,
        }
    }
}

} // verus!
