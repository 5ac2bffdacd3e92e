//! [`BtId`], [`BgId`] and [`Path`] — how a finding says *where*, in the
//! language of the standard: `BG-23[1]/BT-117` rather than an XPath.

use vstd::prelude::*;

use crate::text::{decimal_digits, push_decimal, push_str, string_of};

verus! {

/// A business term identifier — `BT-117`.
#[derive(Debug, Clone, Copy, PartialEq, Eq, PartialOrd, Ord, Hash, Structural)]
pub struct BtId(pub u16);

/// A business group identifier — `BG-23`.
#[derive(Debug, Clone, Copy, PartialEq, Eq, PartialOrd, Ord, Hash, Structural)]
pub struct BgId(pub u16);

impl BtId {
    /// `BT-n`.
    pub fn to_string(&self) -> (r: String)
        ensures
            r@ == seq!['B', 'T', '-'] + decimal_digits(self.0 as nat),
    {
        let mut out: Vec<char> = Vec::new();
        out.push('B');
        out.push('T');
        out.push('-');
        push_decimal(&mut out, self.0 as u64);
        string_of(&out)
    }
}

impl BgId {
    /// `BG-n`.
    pub fn to_string(&self) -> (r: String)
        ensures
            r@ == seq!['B', 'G', '-'] + decimal_digits(self.0 as nat),
    {
        let mut out: Vec<char> = Vec::new();
        out.push('B');
        out.push('G');
        out.push('-');
        push_decimal(&mut out, self.0 as u64);
        string_of(&out)
    }
}

/// The business group a finding sits in.
///
/// Only the groups that can repeat, or that a rule needs to distinguish, are
/// enumerated — a finding on BT-1 is simply [`Group::Document`].
#[derive(Debug, Clone, Copy, PartialEq, Eq, PartialOrd, Ord, Hash, Structural)]
pub enum Group {
    /// The invoice header — BT-1 … BT-24, and anything not in a group below.
    Document,
    /// BG-4 SELLER (and BG-5 / BG-6 beneath it).
    Seller,
    /// BG-7 BUYER (and BG-8 / BG-9 beneath it).
    Buyer,
    /// BG-10 PAYEE.
    Payee,
    /// BG-11 SELLER TAX REPRESENTATIVE PARTY (and BG-12 beneath it).
    TaxRepresentative,
    /// BG-13 DELIVERY INFORMATION.
    Delivery,
    /// BG-16 PAYMENT INSTRUCTIONS.
    Payment,
    /// BG-20 DOCUMENT LEVEL ALLOWANCES.
    DocumentAllowance,
    /// BG-21 DOCUMENT LEVEL CHARGES.
    DocumentCharge,
    /// BG-22 DOCUMENT TOTALS.
    Totals,
    /// BG-23 VAT BREAKDOWN.
    VatBreakdown,
    /// BG-24 ADDITIONAL SUPPORTING DOCUMENTS.
    Attachment,
    /// BG-25 INVOICE LINE (and BG-26 … BG-32 beneath it).
    Line,
}

/// The BG number of a group, where it has one.
pub open spec fn group_number(g: Group) -> Option<u16> {
    match g {
        Group::Document => None,
        Group::Seller => Some(4),
        Group::Buyer => Some(7),
        Group::Payee => Some(10),
        Group::TaxRepresentative => Some(11),
        Group::Delivery => Some(13),
        Group::Payment => Some(16),
        Group::DocumentAllowance => Some(20),
        Group::DocumentCharge => Some(21),
        Group::Totals => Some(22),
        Group::VatBreakdown => Some(23),
        Group::Attachment => Some(24),
        Group::Line => Some(25),
    }
}

/// Whether a group may occur more than once.
pub open spec fn group_repeats(g: Group) -> bool {
    match g {
        Group::DocumentAllowance | Group::DocumentCharge | Group::VatBreakdown
        | Group::Attachment | Group::Line => true,
        _ => false,
    }
}

impl Group {
    /// Every group, in BG order.
    pub fn all() -> (v: Vec<Group>)
        ensures
            v@ == seq![
                Group::Document,
                Group::Seller,
                Group::Buyer,
                Group::Payee,
                Group::TaxRepresentative,
                Group::Delivery,
                Group::Payment,
                Group::DocumentAllowance,
                Group::DocumentCharge,
                Group::Totals,
                Group::VatBreakdown,
                Group::Attachment,
                Group::Line,
            ],
    {
        vec![
            Group::Document,
            Group::Seller,
            Group::Buyer,
            Group::Payee,
            Group::TaxRepresentative,
            Group::Delivery,
            Group::Payment,
            Group::DocumentAllowance,
            Group::DocumentCharge,
            Group::Totals,
            Group::VatBreakdown,
            Group::Attachment,
            Group::Line,
        ]
    }

    /// The BG number, where the group has one.
    pub fn bg(self) -> (r: Option<BgId>)
        ensures
            match group_number(self) {
                Some(n) => r == Some(BgId(n)),
                None => r is None,
            },
    {
        match self {
            Group::Document => None,
            Group::Seller => Some(BgId(4)),
            Group::Buyer => Some(BgId(7)),
            Group::Payee => Some(BgId(10)),
            Group::TaxRepresentative => Some(BgId(11)),
            Group::Delivery => Some(BgId(13)),
            Group::Payment => Some(BgId(16)),
            Group::DocumentAllowance => Some(BgId(20)),
            Group::DocumentCharge => Some(BgId(21)),
            Group::Totals => Some(BgId(22)),
            Group::VatBreakdown => Some(BgId(23)),
            Group::Attachment => Some(BgId(24)),
            Group::Line => Some(BgId(25)),
        }
    }

    /// Whether this group may occur more than once, so a [`Path`] into it
    /// needs an index to be unambiguous.
    pub fn repeats(self) -> (b: bool)
        ensures
            b == group_repeats(self),
    {
        match self {
            Group::DocumentAllowance | Group::DocumentCharge | Group::VatBreakdown
            | Group::Attachment | Group::Line => true,
            _ => false,
        }
    }
}

/// Where in the invoice a finding is: group, occurrence, term.
#[derive(Debug, Clone, Copy, PartialEq, Eq, PartialOrd, Ord, Hash, Structural)]
pub struct Path {
    /// Which group.
    pub group: Group,
    /// Which occurrence, zero-based, for a repeating group.
    pub index: Option<usize>,
    /// Which business term, when the finding is about one.
    pub term: Option<BtId>,
}

/// The rendering of a path: `BG-25[2]/BT-151`, `BT-1`, `BG-22`, or `Invoice`.
pub open spec fn path_text(p: Path) -> Seq<char> {
    let group_part = match group_number(p.group) {
        Some(n) => seq!['B', 'G', '-'] + decimal_digits(n as nat) + match p.index {
            Some(i) => seq!['['] + decimal_digits(i as nat) + seq![']'],
            None => Seq::empty(),
        },
        None => Seq::empty(),
    };
    let with_term = match p.term {
        Some(t) => group_part + (if group_part.len() > 0 {
            seq!['/']
        } else {
            Seq::empty()
        }) + seq!['B', 'T', '-'] + decimal_digits(t.0 as nat),
        None => group_part,
    };
    if with_term.len() == 0 {
        seq!['I', 'n', 'v', 'o', 'i', 'c', 'e']
    } else {
        with_term
    }
}

impl Path {
    /// A header term — `BT-1`.
    pub fn term(term: BtId) -> (p: Path)
        ensures
            p == (Path { group: Group::Document, index: None, term: Some(term) }),
    {
        Path { group: Group::Document, index: None, term: Some(term) }
    }

    /// A whole group — `BG-22`.
    pub fn group(group: Group) -> (p: Path)
        ensures
            p == (Path { group, index: None, term: None }),
    {
        Path { group, index: None, term: None }
    }

    /// A term within a non-repeating group — `BG-22/BT-109`.
    pub fn group_term(group: Group, term: BtId) -> (p: Path)
        ensures
            p == (Path { group, index: None, term: Some(term) }),
    {
        Path { group, index: None, term: Some(term) }
    }

    /// One occurrence of a repeating group — `BG-25[2]`.
    pub fn at(group: Group, index: usize) -> (p: Path)
        ensures
            p == (Path { group, index: Some(index), term: None }),
    {
        Path { group, index: Some(index), term: None }
    }

    /// A term in one occurrence — `BG-25[2]/BT-151`.
    pub fn at_term(group: Group, index: usize, term: BtId) -> (p: Path)
        ensures
            p == (Path { group, index: Some(index), term: Some(term) }),
    {
        Path { group, index: Some(index), term: Some(term) }
    }

    /// The whole document, for rules that are not about any one place.
    pub fn document() -> (p: Path)
        ensures
            p == (Path { group: Group::Document, index: None, term: None }),
    {
        Path { group: Group::Document, index: None, term: None }
    }

    /// `BG-25[2]/BT-151` — group, occurrence, term; `Invoice` when all are absent.
    pub fn to_string(&self) -> (r: String)
        ensures
            r@ == path_text(*self),
    {
        let mut out: Vec<char> = Vec::new();
        match self.group.bg() {
            Some(bg) => {
                out.push('B');
                out.push('G');
                out.push('-');
                push_decimal(&mut out, bg.0 as u64);
                match self.index {
                    Some(i) => {
                        out.push('[');
                        push_decimal(&mut out, i as u64);
                        out.push(']');
                    },
                    None => {},
                }
            },
            None => {},
        }
        proof {
            lemma_decimal_digits_nonempty();
        }
        match self.term {
            Some(t) => {
                if out.len() > 0 {
                    out.push('/');
                }
                out.push('B');
                out.push('T');
                out.push('-');
                push_decimal(&mut out, t.0 as u64);
            },
            None => {},
        }
        if out.len() == 0 {
            out.push('I');
            out.push('n');
            out.push('v');
            out.push('o');
            out.push('i');
            out.push('c');
            out.push('e');
        }
        string_of(&out)
    }
}

/// Every decimal spelling has at least one digit.
pub proof fn lemma_decimal_digits_nonempty()
    ensures
        forall|n: nat| #[trigger] decimal_digits(n).len() >= 1,
{
    assert forall|n: nat| #[trigger] decimal_digits(n).len() >= 1 by {
        if n >= 10 {
            assert(decimal_digits(n) == decimal_digits(n / 10).push(
                crate::text::digit_char((n % 10) as int),
            ));
        }
    }
}

} // verus!
