//! Profiles and CIUSes: restrictions as data, findings derived from them.
//!
//! EN 16931-1 §7.3.2 lists what a CIUS may change, and only one of its six
//! axes is "add a rule". The others restrict the model — a conditional term
//! made mandatory, a term forbidden, a code list narrowed — and are data
//! here: a [`Restriction`] names the term through a [`TermAccessor`], and the
//! finding, its path and its message are derived. Every variant narrows, so
//! a profile built from them cannot loosen the core model.

use std::marker::PhantomData;

use vstd::prelude::*;

use crate::bt::{BtId, Group, Path};
use crate::codes::guard::{
    CodeList, eq_ignore_ascii_case, find_case_fold, same_ignoring_ascii_case, vat_category_list,
    vat_point_date_list,
};
use crate::codes::{joined, lists_text, push_joined, texts, vat_category_values, vat_point_date_values};
use crate::decimal::decimal_normalized_text;
use crate::edition::Edition;
use crate::identifier::{opt_view, owned};
use crate::invoice::{Invoice, Party, PartyRole};
use crate::text::{blank, chars_of, debug_quoted, debug_text, is_blank_str, push_str, str_eq, string_of};
use crate::validation::{Finding, Severity, ValidationReport};
use crate::validation::engine::{finding_keys, has_fatal, profile_findings};
use crate::validation::rules::xrechnung::means_code_of;

verus! {

/// A business term a profile restricts, and how to read it out of an
/// invoice: one occurrence per place the term can appear.
#[derive(Debug, Clone, Copy, PartialEq, Eq, Structural)]
pub enum TermAccessor {
    /// BT-10 Buyer reference.
    BuyerReference,
    /// BT-37 Seller city.
    SellerCity,
    /// BT-38 Seller post code.
    SellerPostCode,
    /// BT-41 Seller contact point.
    SellerContactPoint,
    /// BT-42 Seller contact telephone number.
    SellerContactPhone,
    /// BT-43 Seller contact email address.
    SellerContactEmail,
    /// BT-52 Buyer city.
    BuyerCity,
    /// BT-53 Buyer post code.
    BuyerPostCode,
    /// BT-3 Invoice type code.
    TypeCode,
    /// BT-24 Specification identifier.
    SpecificationId,
    /// BT-81 Payment means type code.
    PaymentMeansCode,
    /// BT-119 VAT category rate, once per VAT breakdown group.
    VatRate,
    /// BG-16 PAYMENT INSTRUCTIONS as a whole.
    PaymentInstructions,
}

/// The term an accessor reads; 0 for a whole group.
pub open spec fn accessor_term(a: TermAccessor) -> u16 {
    match a {
        TermAccessor::BuyerReference => 10,
        TermAccessor::SellerCity => 37,
        TermAccessor::SellerPostCode => 38,
        TermAccessor::SellerContactPoint => 41,
        TermAccessor::SellerContactPhone => 42,
        TermAccessor::SellerContactEmail => 43,
        TermAccessor::BuyerCity => 52,
        TermAccessor::BuyerPostCode => 53,
        TermAccessor::TypeCode => 3,
        TermAccessor::SpecificationId => 24,
        TermAccessor::PaymentMeansCode => 81,
        TermAccessor::VatRate => 119,
        TermAccessor::PaymentInstructions => 0,
    }
}

/// The term's name in the standard.
pub open spec fn accessor_name(a: TermAccessor) -> Seq<char> {
    match a {
        TermAccessor::BuyerReference => "Buyer reference"@,
        TermAccessor::SellerCity => "Seller city"@,
        TermAccessor::SellerPostCode => "Seller post code"@,
        TermAccessor::SellerContactPoint => "Seller contact point"@,
        TermAccessor::SellerContactPhone => "Seller contact telephone number"@,
        TermAccessor::SellerContactEmail => "Seller contact email address"@,
        TermAccessor::BuyerCity => "Buyer city"@,
        TermAccessor::BuyerPostCode => "Buyer post code"@,
        TermAccessor::TypeCode => "Invoice type code"@,
        TermAccessor::SpecificationId => "Specification identifier"@,
        TermAccessor::PaymentMeansCode => "Payment means type code"@,
        TermAccessor::VatRate => "VAT category rate"@,
        TermAccessor::PaymentInstructions => "PAYMENT INSTRUCTIONS (BG-16)"@,
    }
}

/// Where an accessor's single occurrence sits.
pub open spec fn accessor_path(a: TermAccessor) -> Path {
    match a {
        TermAccessor::SellerCity | TermAccessor::SellerPostCode | TermAccessor::SellerContactPoint
        | TermAccessor::SellerContactPhone | TermAccessor::SellerContactEmail => Path {
            group: Group::Seller,
            index: None,
            term: Some(BtId(accessor_term(a))),
        },
        TermAccessor::BuyerCity | TermAccessor::BuyerPostCode => Path {
            group: Group::Buyer,
            index: None,
            term: Some(BtId(accessor_term(a))),
        },
        TermAccessor::PaymentMeansCode => Path {
            group: Group::Payment,
            index: None,
            term: Some(BtId(81)),
        },
        TermAccessor::PaymentInstructions => Path { group: Group::Payment, index: None, term: None },
        _ => Path { group: Group::Document, index: None, term: Some(BtId(accessor_term(a))) },
    }
}

/// The value of an accessor's single occurrence.
pub open spec fn accessor_value(a: TermAccessor, inv: Invoice) -> Option<Seq<char>> {
    match a {
        TermAccessor::BuyerReference => opt_view(inv.buyer_reference),
        TermAccessor::SellerCity => opt_view(inv.seller.address.city),
        TermAccessor::SellerPostCode => opt_view(inv.seller.address.post_code),
        TermAccessor::SellerContactPoint => opt_view(inv.seller.contact.name),
        TermAccessor::SellerContactPhone => opt_view(inv.seller.contact.phone),
        TermAccessor::SellerContactEmail => opt_view(inv.seller.contact.email),
        TermAccessor::BuyerCity => opt_view(inv.buyer.address.city),
        TermAccessor::BuyerPostCode => opt_view(inv.buyer.address.post_code),
        TermAccessor::TypeCode => match inv.type_code {
            Some(c) => Some(c@),
            None => None,
        },
        TermAccessor::SpecificationId => opt_view(inv.specification_id),
        TermAccessor::PaymentMeansCode => means_code_of(inv),
        TermAccessor::PaymentInstructions => if inv.payment is Some {
            Some("present"@)
        } else {
            None
        },
        TermAccessor::VatRate => None,
    }
}

/// Every occurrence of the term: `(where, value)`, `None` where it is absent.
pub open spec fn occurrences(a: TermAccessor, inv: Invoice) -> Seq<(Path, Option<Seq<char>>)> {
    match a {
        TermAccessor::VatRate => Seq::new(
            inv.vat_breakdown@.len(),
            |i: int|
                (
                    Path { group: Group::VatBreakdown, index: Some(i as usize), term: Some(BtId(119)) },
                    match inv.vat_breakdown@[i].rate {
                        Some(r) => Some(decimal_normalized_text(r@.mantissa as int, r@.scale as int)),
                        None => None,
                    },
                ),
        ),
        _ => seq![(accessor_path(a), accessor_value(a, inv))],
    }
}

/// An owned copy of an optional text.
fn copy_opt(s: &Option<String>) -> (r: Option<String>)
    ensures
        opt_view(r) == opt_view(*s),
{
    match s {
        Some(t) => Some(owned(t.as_str())),
        None => None,
    }
}

impl TermAccessor {
    /// Which term.
    pub fn term(self) -> (t: BtId)
        ensures
            t == BtId(accessor_term(self)),
    {
        BtId(
            match self {
                TermAccessor::BuyerReference => 10,
                TermAccessor::SellerCity => 37,
                TermAccessor::SellerPostCode => 38,
                TermAccessor::SellerContactPoint => 41,
                TermAccessor::SellerContactPhone => 42,
                TermAccessor::SellerContactEmail => 43,
                TermAccessor::BuyerCity => 52,
                TermAccessor::BuyerPostCode => 53,
                TermAccessor::TypeCode => 3,
                TermAccessor::SpecificationId => 24,
                TermAccessor::PaymentMeansCode => 81,
                TermAccessor::VatRate => 119,
                TermAccessor::PaymentInstructions => 0,
            },
        )
    }

    /// Its name in the standard, for messages.
    pub fn name(self) -> (n: &'static str)
        ensures
            n@ == accessor_name(self),
    {
        match self {
            TermAccessor::BuyerReference => "Buyer reference",
            TermAccessor::SellerCity => "Seller city",
            TermAccessor::SellerPostCode => "Seller post code",
            TermAccessor::SellerContactPoint => "Seller contact point",
            TermAccessor::SellerContactPhone => "Seller contact telephone number",
            TermAccessor::SellerContactEmail => "Seller contact email address",
            TermAccessor::BuyerCity => "Buyer city",
            TermAccessor::BuyerPostCode => "Buyer post code",
            TermAccessor::TypeCode => "Invoice type code",
            TermAccessor::SpecificationId => "Specification identifier",
            TermAccessor::PaymentMeansCode => "Payment means type code",
            TermAccessor::VatRate => "VAT category rate",
            TermAccessor::PaymentInstructions => "PAYMENT INSTRUCTIONS (BG-16)",
        }
    }

    /// `(where, value)` for every occurrence in `inv`.
    pub fn read(self, inv: &Invoice) -> (r: Vec<(Path, Option<String>)>)
        ensures
            r@.len() == occurrences(self, *inv).len(),
            forall|i: int|
                0 <= i < r@.len() ==> (#[trigger] r@[i]).0 == occurrences(self, *inv)[i].0
                    && opt_view(r@[i].1) == occurrences(self, *inv)[i].1,
    {
        let mut out: Vec<(Path, Option<String>)> = Vec::new();
        match self {
            TermAccessor::VatRate => {
                let n = inv.vat_breakdown.len();
                let mut i: usize = 0;
                while i < n
                    invariant
                        self == TermAccessor::VatRate,
                        n == inv.vat_breakdown@.len(),
                        i <= n,
                        out@.len() == i,
                        forall|k: int|
                            0 <= k < i ==> (#[trigger] out@[k]).0 == occurrences(self, *inv)[k].0
                                && opt_view(out@[k].1) == occurrences(self, *inv)[k].1,
                    decreases n - i,
                {
                    let value = match &inv.vat_breakdown[i].rate {
                        Some(r) => {
                            r.check_wf();
                            Some(r.to_string())
                        },
                        None => None,
                    };
                    out.push((Path::at_term(Group::VatBreakdown, i, BtId(119)), value));
                    i = i + 1;
                }
            },
            _ => {
                let value: Option<String> = match self {
                    TermAccessor::BuyerReference => copy_opt(&inv.buyer_reference),
                    TermAccessor::SellerCity => copy_opt(&inv.seller.address.city),
                    TermAccessor::SellerPostCode => copy_opt(&inv.seller.address.post_code),
                    TermAccessor::SellerContactPoint => copy_opt(&inv.seller.contact.name),
                    TermAccessor::SellerContactPhone => copy_opt(&inv.seller.contact.phone),
                    TermAccessor::SellerContactEmail => copy_opt(&inv.seller.contact.email),
                    TermAccessor::BuyerCity => copy_opt(&inv.buyer.address.city),
                    TermAccessor::BuyerPostCode => copy_opt(&inv.buyer.address.post_code),
                    TermAccessor::TypeCode => match &inv.type_code {
                        Some(c) => Some(owned(c.as_str())),
                        None => None,
                    },
                    TermAccessor::SpecificationId => copy_opt(&inv.specification_id),
                    TermAccessor::PaymentMeansCode => match &inv.payment {
                        Some(p) => match &p.means_code {
                            Some(c) => Some(owned(c.as_str())),
                            None => None,
                        },
                        None => None,
                    },
                    _ => if inv.payment.is_some() {
                        Some(owned("present"))
                    } else {
                        None
                    },
                };
                let path = match self {
                    TermAccessor::SellerCity | TermAccessor::SellerPostCode
                    | TermAccessor::SellerContactPoint | TermAccessor::SellerContactPhone
                    | TermAccessor::SellerContactEmail => Path::group_term(Group::Seller, self.term()),
                    TermAccessor::BuyerCity | TermAccessor::BuyerPostCode => Path::group_term(
                        Group::Buyer,
                        self.term(),
                    ),
                    TermAccessor::PaymentMeansCode => Path::group_term(Group::Payment, BtId(81)),
                    TermAccessor::PaymentInstructions => Path::group(Group::Payment),
                    _ => Path::term(self.term()),
                };
                out.push((path, value));
            },
        }
        out
    }
}


// ── Restriction ───────────────────────────────────────────────────────────────

/// One of §7.3.2's narrowings, published under the profile's own rule id.
#[derive(Debug, Clone)]
pub enum Restriction {
    /// Cardinality `0..x → 1..x`: the term becomes mandatory.
    Mandatory {
        /// The rule id the profile publishes for it.
        id: &'static str,
        /// Which term.
        term: TermAccessor,
    },
    /// Cardinality `0..x → 0..0`: the term must not be used.
    NotUsed {
        /// The rule id the profile publishes for it.
        id: &'static str,
        /// Which term.
        term: TermAccessor,
    },
    /// A code list narrowed to the values that remain admissible.
    CodeValues {
        /// The rule id the profile publishes for it.
        id: &'static str,
        /// Which term.
        term: TermAccessor,
        /// The values that remain admissible.
        allowed: Vec<&'static str>,
    },
}

/// The rule id a restriction is published under.
pub open spec fn restriction_id(r: Restriction) -> &'static str {
    match r {
        Restriction::Mandatory { id, .. } => id,
        Restriction::NotUsed { id, .. } => id,
        Restriction::CodeValues { id, .. } => id,
    }
}

/// The term a restriction narrows.
pub open spec fn restriction_term(r: Restriction) -> TermAccessor {
    match r {
        Restriction::Mandatory { term, .. } => term,
        Restriction::NotUsed { term, .. } => term,
        Restriction::CodeValues { term, .. } => term,
    }
}

/// Whether one occurrence satisfies the restriction. Blank counts as absent
/// for both `Mandatory` and `NotUsed`; an absent value is not outside a
/// `CodeValues` list.
pub open spec fn restriction_holds(r: Restriction, value: Option<Seq<char>>) -> bool {
    match r {
        Restriction::Mandatory { .. } => value matches Some(v) && !blank(v),
        Restriction::NotUsed { .. } => !(value matches Some(v) && !blank(v)),
        Restriction::CodeValues { allowed, .. } => match value {
            Some(v) => texts(allowed@).contains(v),
            None => true,
        },
    }
}

/// `<name> (BT-n)`.
pub open spec fn term_label(a: TermAccessor) -> Seq<char> {
    accessor_name(a) + " ("@ + seq!['B', 'T', '-'] + crate::text::decimal_digits(
        accessor_term(a) as nat,
    ) + ")"@
}

/// The message a failing occurrence carries.
pub open spec fn restriction_message(r: Restriction) -> Seq<char> {
    match r {
        Restriction::Mandatory { term, .. } => term_label(term) + " shall be present"@,
        Restriction::NotUsed { term, .. } => term_label(term) + " shall not be used"@,
        Restriction::CodeValues { term, allowed, .. } => term_label(term) + " shall be one of: "@
            + joined(texts(allowed@), ", "@),
    }
}

/// The core lists this library carries, by the name they are reported under
/// and their values.
pub open spec fn core_lists() -> Seq<(Seq<char>, Seq<&'static str>)> {
    seq![
        ("UNCL 5305"@, vat_category_values()),
        ("UNTDID 2005, the three EN 16931 values"@, vat_point_date_values()),
    ]
}

/// The first core list that holds `value` and is wider than `allowed`.
pub open spec fn wider_list(lists: Seq<(Seq<char>, Seq<&'static str>)>, value: Seq<char>, allowed: nat) -> Option<Seq<char>>
    decreases lists.len(),
{
    if lists.len() == 0 {
        None
    } else if lists_text(lists[0].1, value) && lists[0].1.len() > allowed {
        Some(lists[0].0)
    } else {
        wider_list(lists.drop_first(), value, allowed)
    }
}

/// Why a value failed a `CodeValues` restriction, when that can be told: a
/// case slip of an admitted code, or a lawful core code this profile has
/// narrowed away.
pub open spec fn scope_hint(value: Seq<char>, allowed: Seq<&'static str>) -> Option<Seq<char>> {
    match find_case_fold(allowed, value) {
        Some(c) => Some(
            "did you mean "@ + debug_text(c) + "? EN 16931-1 §6.5.8 requires codes \"entered exactly as shown\""@,
        ),
        None => match wider_list(core_lists(), value, allowed.len()) {
            Some(name) => Some(
                debug_text(value) + " is a valid "@ + name
                    + " value but this profile does not admit it — a CIUS may narrow a code list (§7.3.2), so this is a scope question, not a typo"@,
            ),
            None => None,
        },
    }
}

/// The hint a failing occurrence carries.
pub open spec fn restriction_hint(r: Restriction, value: Option<Seq<char>>) -> Option<Seq<char>> {
    match r {
        Restriction::CodeValues { allowed, .. } => match value {
            Some(v) => scope_hint(v, allowed@),
            None => None,
        },
        _ => None,
    }
}

/// The occurrences among the first `n` that fail the restriction, in order.
pub open spec fn failing(r: Restriction, occ: Seq<(Path, Option<Seq<char>>)>, n: nat) -> Seq<(Path, Option<Seq<char>>)>
    decreases n,
{
    if n == 0 {
        Seq::empty()
    } else {
        let earlier = failing(r, occ, (n - 1) as nat);
        if restriction_holds(r, occ[n - 1].1) {
            earlier
        } else {
            earlier.push(occ[n - 1])
        }
    }
}

/// The failing occurrences of `r` in `inv`.
pub open spec fn restriction_failures(r: Restriction, inv: Invoice) -> Seq<(Path, Option<Seq<char>>)> {
    let occ = occurrences(restriction_term(r), inv);
    failing(r, occ, occ.len())
}

/// Why a value failed a `CodeValues` restriction, when that can be told.
fn case_or_scope_hint(value: &str, allowed: &Vec<&'static str>) -> (r: Option<String>)
    ensures
        opt_view(r) == scope_hint(value@, allowed@),
{
    let v = chars_of(value);
    let mut i: usize = 0;
    assert(allowed@.subrange(0, allowed@.len() as int) =~= allowed@);
    while i < allowed.len()
        invariant
            i <= allowed@.len(),
            v@ == value@,
            find_case_fold(allowed@.subrange(i as int, allowed@.len() as int), value@)
                == find_case_fold(allowed@, value@),
        decreases allowed.len() - i,
    {
        let ghost rest = allowed@.subrange(i as int, allowed@.len() as int);
        assert(rest.drop_first() =~= allowed@.subrange(i + 1, allowed@.len() as int));
        let c = allowed[i];
        if same_ignoring_ascii_case(&chars_of(c), &v) {
            let q = debug_quoted(c);
            let mut out: Vec<char> = Vec::new();
            push_str(&mut out, "did you mean ");
            push_str(&mut out, q.as_str());
            push_str(&mut out, "? EN 16931-1 §6.5.8 requires codes \"entered exactly as shown\"");
            let s = string_of(&out);
            assert(s@ =~= "did you mean "@ + debug_text(c@)
                + "? EN 16931-1 §6.5.8 requires codes \"entered exactly as shown\""@);
            return Some(s);
        }
        i = i + 1;
    }
    assert(allowed@.subrange(allowed@.len() as int, allowed@.len() as int) =~= Seq::<&'static str>::empty());
    let lists: Vec<CodeList> = vec![vat_category_list(), vat_point_date_list()];
    assert(core_lists().subrange(0, 2) =~= core_lists());
    let mut j: usize = 0;
    while j < lists.len()
        invariant
            lists@.len() == 2,
            j <= 2,
            forall|k: int| 0 <= k < 2 ==> (#[trigger] lists@[k]).wf() && lists@[k].values@ == core_lists()[k].1
                && lists@[k].name@ == core_lists()[k].0,
            wider_list(core_lists().subrange(j as int, 2), value@, allowed@.len()) == wider_list(
                core_lists(),
                value@,
                allowed@.len(),
            ),
            find_case_fold(allowed@, value@) is None,
        decreases 2 - j,
    {
        assert(core_lists().subrange(j as int, 2).drop_first() =~= core_lists().subrange(j + 1, 2));
        let l = &lists[j];
        if l.accepts(value) && l.values.len() > allowed.len() {
            let q = debug_quoted(value);
            let mut out: Vec<char> = Vec::new();
            push_str(&mut out, q.as_str());
            push_str(&mut out, " is a valid ");
            push_str(&mut out, l.name);
            push_str(
                &mut out,
                " value but this profile does not admit it — a CIUS may narrow a code list (§7.3.2), so this is a scope question, not a typo",
            );
            let s = string_of(&out);
            assert(s@ =~= debug_text(value@) + " is a valid "@ + core_lists()[j as int].0
                + " value but this profile does not admit it — a CIUS may narrow a code list (§7.3.2), so this is a scope question, not a typo"@);
            return Some(s);
        }
        j = j + 1;
    }
    None
}


/// Whether `s` is one of `list`.
fn listed(list: &Vec<&'static str>, s: &str) -> (b: bool)
    ensures
        b == texts(list@).contains(s@),
{
    let mut i: usize = 0;
    while i < list.len()
        invariant
            i <= list@.len(),
            forall|k: int| 0 <= k < i ==> list@[k]@ != s@,
        decreases list.len() - i,
    {
        if str_eq(list[i], s) {
            assert(texts(list@)[i as int] == s@);
            return true;
        }
        i = i + 1;
    }
    proof {
        if texts(list@).contains(s@) {
            let k = choose|k: int| 0 <= k < texts(list@).len() && texts(list@)[k] == s@;
            assert(list@[k]@ == s@);
        }
    }
    false
}

impl Restriction {
    /// The rule id this restriction is published under.
    pub fn id(&self) -> (r: &'static str)
        ensures
            r == restriction_id(*self),
    {
        match self {
            Restriction::Mandatory { id, .. } => id,
            Restriction::NotUsed { id, .. } => id,
            Restriction::CodeValues { id, .. } => id,
        }
    }

    /// The term it narrows.
    pub fn term(&self) -> (t: TermAccessor)
        ensures
            t == restriction_term(*self),
    {
        match self {
            Restriction::Mandatory { term, .. } => *term,
            Restriction::NotUsed { term, .. } => *term,
            Restriction::CodeValues { term, .. } => *term,
        }
    }

    /// Whether one occurrence's value satisfies it.
    fn holds(&self, value: &Option<String>) -> (b: bool)
        ensures
            b == restriction_holds(*self, opt_view(*value)),
    {
        match self {
            Restriction::Mandatory { .. } => match value {
                Some(v) => !is_blank_str(v.as_str()),
                None => false,
            },
            Restriction::NotUsed { .. } => match value {
                Some(v) => is_blank_str(v.as_str()),
                None => true,
            },
            Restriction::CodeValues { allowed, .. } => match value {
                Some(v) => listed(allowed, v.as_str()),
                None => true,
            },
        }
    }

    /// The message a failing occurrence carries.
    fn message(&self) -> (m: String)
        ensures
            m@ == restriction_message(*self),
    {
        let acc = self.term();
        let mut out: Vec<char> = Vec::new();
        push_str(&mut out, acc.name());
        push_str(&mut out, " (");
        let t = acc.term().to_string();
        push_str(&mut out, t.as_str());
        push_str(&mut out, ")");
        match self {
            Restriction::Mandatory { .. } => push_str(&mut out, " shall be present"),
            Restriction::NotUsed { .. } => push_str(&mut out, " shall not be used"),
            Restriction::CodeValues { allowed, .. } => {
                push_str(&mut out, " shall be one of: ");
                push_joined(&mut out, allowed, ", ");
            },
        }
        let m = string_of(&out);
        assert(m@ =~= restriction_message(*self));
        m
    }

    /// Evaluate the restriction on `inv`: one fatal finding per failing
    /// occurrence, with the occurrence's path, the profile's rule id, and for
    /// a narrowed code list a hint when the value is a case slip or a lawful
    /// core code.
    pub fn check(&self, inv: &Invoice) -> (r: Vec<Finding>)
        ensures
            r@.len() == restriction_failures(*self, *inv).len(),
            forall|k: int|
                0 <= k < r@.len() ==> {
                    let f = #[trigger] r@[k];
                    let o = restriction_failures(*self, *inv)[k];
                    &&& f.rule@ == restriction_id(*self)@
                    &&& f.severity == Severity::Fatal
                    &&& f.path == o.0
                    &&& f.message@ == restriction_message(*self)
                    &&& f.detail is None
                    &&& opt_view(f.hint) == restriction_hint(*self, o.1)
                },
    {
        let occ = self.term().read(inv);
        let ghost spec_occ = occurrences(restriction_term(*self), *inv);
        let message = self.message();
        let mut out: Vec<Finding> = Vec::new();
        let mut i: usize = 0;
        while i < occ.len()
            invariant
                occ@.len() == spec_occ.len(),
                spec_occ == occurrences(restriction_term(*self), *inv),
                forall|j: int|
                    0 <= j < occ@.len() ==> (#[trigger] occ@[j]).0 == spec_occ[j].0 && opt_view(
                        occ@[j].1,
                    ) == spec_occ[j].1,
                message@ == restriction_message(*self),
                i <= occ@.len(),
                out@.len() == failing(*self, spec_occ, i as nat).len(),
                forall|k: int|
                    0 <= k < out@.len() ==> {
                        let f = #[trigger] out@[k];
                        let o = failing(*self, spec_occ, i as nat)[k];
                        &&& f.rule@ == restriction_id(*self)@
                        &&& f.severity == Severity::Fatal
                        &&& f.path == o.0
                        &&& f.message@ == restriction_message(*self)
                        &&& f.detail is None
                        &&& opt_view(f.hint) == restriction_hint(*self, o.1)
                    },
            decreases occ.len() - i,
        {
            let (path, value) = &occ[i];
            assert(opt_view(*value) == spec_occ[i as int].1);
            if !self.holds(value) {
                let hint = match self {
                    Restriction::CodeValues { allowed, .. } => match value {
                        Some(v) => case_or_scope_hint(v.as_str(), allowed),
                        None => None,
                    },
                    _ => None,
                };
                out.push(
                    Finding {
                        rule: owned(self.id()),
                        severity: Severity::Fatal,
                        path: *path,
                        message: owned(message.as_str()),
                        detail: None,
                        hint,
                    },
                );
            }
            i = i + 1;
        }
        out
    }
}

/// A term a profile requires and a document does not yet carry.
#[derive(Debug, Clone, Copy, PartialEq, Eq)]
pub struct Missing {
    /// Which business term; `BT-0` for a whole group.
    pub term: BtId,
    /// Its name in the standard.
    pub name: &'static str,
    /// The rule the profile publishes it under — `BR-DE-3`.
    pub rule: &'static str,
    /// Where it belongs — `BG-4/BT-37`.
    pub path: Path,
}

/// What a [`Missing`] says: the term, its name, the rule and the path.
pub open spec fn missing_view(m: Missing) -> (BtId, Seq<char>, Seq<char>, Path) {
    (m.term, m.name@, m.rule@, m.path)
}

/// `[rule] path — name`.
pub open spec fn missing_text(m: Missing) -> Seq<char> {
    "["@ + m.rule@ + "] "@ + crate::bt::path_text(m.path) + " — "@ + m.name@
}

impl Missing {
    /// `[BR-DE-3] BG-4/BT-37 — Seller city`.
    pub fn to_string(&self) -> (r: String)
        ensures
            r@ == missing_text(*self),
    {
        let mut out: Vec<char> = Vec::new();
        push_str(&mut out, "[");
        push_str(&mut out, self.rule);
        push_str(&mut out, "] ");
        let p = self.path.to_string();
        push_str(&mut out, p.as_str());
        push_str(&mut out, " — ");
        push_str(&mut out, self.name);
        let r = string_of(&out);
        assert(r@ =~= missing_text(*self));
        r
    }
}

/// What one restriction reports as missing in `inv`: for a `Mandatory`, each
/// occurrence absent or blank; nothing for the other kinds.
pub open spec fn missing_of(r: Restriction, inv: Invoice) -> Seq<(BtId, Seq<char>, Seq<char>, Path)> {
    match r {
        Restriction::Mandatory { id, term } => {
            let fails = restriction_failures(r, inv);
            Seq::new(
                fails.len(),
                |k: int| (BtId(accessor_term(term)), accessor_name(term), id@, fails[k].0),
            )
        },
        _ => Seq::empty(),
    }
}

/// What the first `n` restrictions report as missing, in order.
pub open spec fn missing_entries(rs: Seq<Restriction>, inv: Invoice, n: nat) -> Seq<(BtId, Seq<char>, Seq<char>, Path)>
    decreases n,
{
    if n == 0 {
        Seq::empty()
    } else {
        missing_entries(rs, inv, (n - 1) as nat) + missing_of(rs[n - 1], inv)
    }
}

/// A core invoice usage specification: its identifiers, what it builds on,
/// and its restrictions as data.
#[derive(Debug, Clone)]
pub struct Profile {
    /// Short name, for reports.
    pub id: &'static str,
    /// The BT-24 value a document declaring this profile carries.
    pub specification_id: &'static str,
    /// The edition of EN 16931-1 it is a usage specification of.
    pub edition: Edition,
    /// §4.4.2: its underlying specifications.
    pub underlying: Vec<&'static str>,
    /// §7.3.2's narrowings, as data.
    pub restrictions: Vec<Restriction>,
    /// The conditional rules the profile adds, by registry id — the one axis
    /// of §7.3.2 that needs code.
    pub extra_rules: Vec<&'static str>,
    /// Extension groups this profile can represent.
    pub extensions: Vec<&'static str>,
    /// Core rules this profile withdraws.
    pub suppressed: Vec<&'static str>,
}

impl Profile {
    /// Whether this profile is a conformant CIUS under §4.4.2: everything it
    /// accepts is also core-valid. Its restrictions only narrow, so that
    /// fails exactly when it withdraws a core rule.
    pub fn is_conformant_cius(&self) -> (b: bool)
        ensures
            b == (self.suppressed@.len() == 0),
    {
        self.suppressed.len() == 0
    }

    /// The terms this profile makes mandatory that `invoice` does not yet
    /// carry: a pre-flight for a document still being assembled, answered
    /// from the restrictions alone.
    pub fn missing_terms(&self, invoice: &Invoice) -> (r: Vec<Missing>)
        ensures
            r@.map_values(|m: Missing| missing_view(m)) == missing_entries(
                self.restrictions@,
                *invoice,
                self.restrictions@.len(),
            ),
    {
        let mut out: Vec<Missing> = Vec::new();
        let mut i: usize = 0;
        while i < self.restrictions.len()
            invariant
                i <= self.restrictions@.len(),
                out@.map_values(|m: Missing| missing_view(m)) == missing_entries(
                    self.restrictions@,
                    *invoice,
                    i as nat,
                ),
            decreases self.restrictions.len() - i,
        {
            let r = &self.restrictions[i];
            let ghost before = out@;
            match r {
                Restriction::Mandatory { id, term } => {
                    let occ = term.read(invoice);
                    let ghost spec_occ = occurrences(*term, *invoice);
                    let mut j: usize = 0;
                    while j < occ.len()
                        invariant
                            occ@.len() == spec_occ.len(),
                            spec_occ == occurrences(*term, *invoice),
                            *r == self.restrictions@[i as int],
                            *r == (Restriction::Mandatory { id: *id, term: *term }),
                            forall|k: int|
                                0 <= k < occ@.len() ==> (#[trigger] occ@[k]).0 == spec_occ[k].0
                                    && opt_view(occ@[k].1) == spec_occ[k].1,
                            j <= occ@.len(),
                            out@.map_values(|m: Missing| missing_view(m)) == before.map_values(
                                |m: Missing| missing_view(m),
                            ) + Seq::new(
                                failing(*r, spec_occ, j as nat).len(),
                                |k: int|
                                    (
                                        BtId(accessor_term(*term)),
                                        accessor_name(*term),
                                        (*id)@,
                                        failing(*r, spec_occ, j as nat)[k].0,
                                    ),
                            ),
                        decreases occ.len() - j,
                    {
                        let (path, value) = &occ[j];
                        assert(opt_view(*value) == spec_occ[j as int].1);
                        let ghost f_prev = failing(*r, spec_occ, j as nat);
                        let ghost f_next = failing(*r, spec_occ, (j + 1) as nat);
                        let ghost out_before = out@;
                        if !r.holds(value) {
                            let m = Missing { term: term.term(), name: term.name(), rule: id, path: *path };
                            assert(f_next == f_prev.push(spec_occ[j as int]));
                            assert(missing_view(m) == (
                                BtId(accessor_term(*term)),
                                accessor_name(*term),
                                (*id)@,
                                spec_occ[j as int].0,
                            ));
                            out.push(m);
                            assert(out@.map_values(|m: Missing| missing_view(m)) =~= out_before.map_values(
                                |m: Missing| missing_view(m),
                            ).push(missing_view(m)));
                        } else {
                            assert(f_next == f_prev);
                        }
                        proof {
                            assert(out@.map_values(|m: Missing| missing_view(m)) =~= before.map_values(
                                |m: Missing| missing_view(m),
                            ) + Seq::new(
                                failing(*r, spec_occ, (j + 1) as nat).len(),
                                |k: int|
                                    (
                                        BtId(accessor_term(*term)),
                                        accessor_name(*term),
                                        (*id)@,
                                        failing(*r, spec_occ, (j + 1) as nat)[k].0,
                                    ),
                            ));
                        }
                        j = j + 1;
                    }
                    proof {
                        assert(out@.map_values(|m: Missing| missing_view(m)) =~= missing_entries(
                            self.restrictions@,
                            *invoice,
                            (i + 1) as nat,
                        ));
                    }
                },
                _ => {
                    proof {
                        assert(missing_of(*r, *invoice) =~= Seq::empty());
                        assert(missing_entries(self.restrictions@, *invoice, (i + 1) as nat)
                            =~= missing_entries(self.restrictions@, *invoice, i as nat));
                    }
                },
            }
            i = i + 1;
        }
        out
    }
}


/// An exact copy of a postal address.
fn copy_address(a: &crate::invoice::PostalAddress) -> (r: crate::invoice::PostalAddress)
    ensures
        r == *a,
{
    crate::invoice::PostalAddress {
        line1: a.line1.clone(),
        line2: a.line2.clone(),
        line3: a.line3.clone(),
        city: a.city.clone(),
        post_code: a.post_code.clone(),
        subdivision: a.subdivision.clone(),
        country: match &a.country {
            Some(c) => Some(c.clone()),
            None => None,
        },
    }
}

/// An exact copy of an optional identifier.
fn copy_identifier(i: &Option<crate::identifier::Identifier>) -> (r: Option<crate::identifier::Identifier>)
    ensures
        r == *i,
{
    match i {
        Some(x) => Some(x.clone()),
        None => None,
    }
}

/// A copy of a party: every field copied, the address and the contact
/// exactly.
fn copy_party(p: &Party) -> (r: Party)
    ensures
        r.address == p.address,
        r.contact == p.contact,
{
    let mut ids: Vec<crate::identifier::Identifier> = Vec::new();
    let mut i: usize = 0;
    while i < p.identifiers.len()
        invariant
            i <= p.identifiers@.len(),
            ids@ == p.identifiers@.subrange(0, i as int),
        decreases p.identifiers.len() - i,
    {
        ids.push(p.identifiers[i].clone());
        i = i + 1;
    }
    assert(ids@ == p.identifiers@);
    let r = Party {
        name: p.name.clone(),
        trading_name: p.trading_name.clone(),
        identifiers: ids,
        legal_registration: copy_identifier(&p.legal_registration),
        vat_identifier: p.vat_identifier.clone(),
        tax_registration: p.tax_registration.clone(),
        additional_legal_information: p.additional_legal_information.clone(),
        electronic_address: copy_identifier(&p.electronic_address),
        address: copy_address(&p.address),
        contact: crate::invoice::Contact {
            name: p.contact.name.clone(),
            phone: p.contact.phone.clone(),
            email: p.contact.email.clone(),
        },
    };
    r
}

/// The group a party role reports under.
pub open spec fn role_group(role: PartyRole) -> Group {
    match role {
        PartyRole::Seller => Group::Seller,
        PartyRole::Buyer => Group::Buyer,
    }
}

/// The entries of `es` about `g`, in order.
pub open spec fn entries_in(es: Seq<(BtId, Seq<char>, Seq<char>, Path)>, g: Group) -> Seq<(BtId, Seq<char>, Seq<char>, Path)>
    decreases es.len(),
{
    if es.len() == 0 {
        Seq::empty()
    } else if es.last().3.group == g {
        entries_in(es.drop_last(), g).push(es.last())
    } else {
        entries_in(es.drop_last(), g)
    }
}

/// `inv` with the party in `role` replaced by `p`.
pub open spec fn with_party(inv: Invoice, role: PartyRole, p: Party) -> Invoice {
    match role {
        PartyRole::Seller => Invoice { seller: p, ..inv },
        PartyRole::Buyer => Invoice { buyer: p, ..inv },
    }
}

impl Party {
    /// The terms `profile` requires of this party in `role` that it does not
    /// yet carry: the profile's own restrictions, asked of a blank document
    /// holding the party, narrowed to the party's group. (Of a party, the
    /// restrictions read its address and its contact.)
    ///
    /// Restrictions only: the conditional rules depend on the whole document
    /// and are not answered here.
    pub fn missing_for(&self, profile: &Profile, role: PartyRole) -> (r: Vec<Missing>)
        ensures
            exists|blank: Invoice, copy: Party|
                crate::invoice::is_empty_invoice(blank) && copy.address == self.address
                    && copy.contact == self.contact && r@.map_values(|m: Missing| missing_view(m))
                    == entries_in(
                    missing_entries(
                        profile.restrictions@,
                        with_party(blank, role, copy),
                        profile.restrictions@.len(),
                    ),
                    role_group(role),
                ),
    {
        let mut scratch = Invoice::default();
        let ghost blank = scratch;
        let copy = copy_party(self);
        let ghost copied = copy;
        match role {
            PartyRole::Seller => scratch.seller = copy,
            PartyRole::Buyer => scratch.buyer = copy,
        }
        assert(scratch == with_party(blank, role, copied));
        let all = profile.missing_terms(&scratch);
        let ghost es = missing_entries(profile.restrictions@, scratch, profile.restrictions@.len());
        let group = role.group();
        let mut out: Vec<Missing> = Vec::new();
        let mut i: usize = 0;
        while i < all.len()
            invariant
                all@.map_values(|m: Missing| missing_view(m)) == es,
                group == role_group(role),
                i <= all@.len(),
                out@.map_values(|m: Missing| missing_view(m)) == entries_in(es.subrange(0, i as int), group),
            decreases all.len() - i,
        {
            proof {
                assert(es.subrange(0, i + 1).drop_last() =~= es.subrange(0, i as int));
                assert(es[i as int] == missing_view(all@[i as int]));
            }
            let ghost before = out@;
            if all[i].path.group == group {
                let m = all[i];
                out.push(m);
                assert(out@.map_values(|m: Missing| missing_view(m)) =~= before.map_values(
                    |m: Missing| missing_view(m),
                ).push(missing_view(m)));
            }
            i = i + 1;
        }
        proof {
            assert(es.subrange(0, all@.len() as int) =~= es);
            assert(es.len() == all@.len());
        }
        out
    }
}

// ── The proof ─────────────────────────────────────────────────────────────────

/// What [`Validated::new`] hands back when the invoice fails: the invoice,
/// unchanged, and the report saying why.
pub type Rejected = Box<(Invoice, ValidationReport)>;

/// A profile, at the type level.
pub trait ProfileMarker {
    /// Whether `p` is the profile this marker stands for.
    spec fn describes(p: Profile) -> bool;

    /// The profile this marker stands for.
    fn profile() -> (p: Profile)
        ensures
            Self::describes(p),
    ;
}

/// Whether `inv` passes the profile `P` stands for: no fatal finding.
pub open spec fn accepted_by<P: ProfileMarker>(inv: Invoice) -> bool {
    exists|p: Profile| #[trigger] P::describes(p) && !has_fatal(profile_findings(p, inv))
}

/// `Q: Underlies<P>` means every document valid under `P` is valid under
/// `Q`, and says why in [`Underlies::lemma_widens`]. Implemented only where
/// the CIUS relationship actually holds, so [`Validated::widen`] cannot be
/// used to launder a weaker proof into a stronger one.
pub trait Underlies<P: ProfileMarker>: ProfileMarker {
    /// A document valid under `P` is valid under this profile.
    proof fn lemma_widens(p: Profile, q: Profile, inv: Invoice)
        requires
            P::describes(p),
            Self::describes(q),
            !has_fatal(profile_findings(p, inv)),
        ensures
            !has_fatal(profile_findings(q, inv)),
    ;
}

/// An invoice that has been validated against `P`.
///
/// A serialiser can demand `Validated<XRechnung>` and then cannot be handed
/// an unchecked invoice, or one checked against a different profile.
#[derive(Debug)]
pub struct Validated<P: ProfileMarker> {
    invoice: Invoice,
    marker: PhantomData<P>,
}

impl<P: ProfileMarker> Validated<P> {
    /// What every value of the type holds: its invoice passes `P`.
    #[verifier::type_invariant]
    spec fn passes(self) -> bool {
        accepted_by::<P>(self.invoice)
    }

    /// The invoice.
    pub closed spec fn spec_invoice(self) -> Invoice {
        self.invoice
    }

    /// Validate, or hand the invoice back with the reason: `Ok` exactly when
    /// the report of `P`'s profile holds no fatal finding.
    pub fn new(invoice: Invoice) -> (r: Result<Self, Rejected>)
        ensures
            match r {
                Ok(v) => v.spec_invoice() == invoice && accepted_by::<P>(invoice),
                Err(b) => b.0 == invoice && exists|p: Profile|
                    #[trigger] P::describes(p) && finding_keys(b.1.findings@) == profile_findings(p, invoice)
                        && has_fatal(profile_findings(p, invoice)),
            },
    {
        let p = P::profile();
        let report = p.validate(&invoice);
        if report.is_valid() {
            Ok(Validated { invoice, marker: PhantomData })
        } else {
            Err(Box::new((invoice, report)))
        }
    }

    /// The invoice.
    pub fn invoice(&self) -> (r: &Invoice)
        ensures
            *r == self.spec_invoice(),
    {
        &self.invoice
    }

    /// Give the invoice back.
    pub fn into_inner(self) -> (r: Invoice)
        ensures
            r == self.spec_invoice(),
            accepted_by::<P>(r),
    {
        proof {
            use_type_invariant(&self);
        }
        self.invoice
    }

    /// Re-badge as validated against a less restrictive profile — no second
    /// validation pass, because `Q: Underlies<P>` proves it unnecessary.
    pub fn widen<Q: Underlies<P>>(self) -> (r: Validated<Q>)
        ensures
            r.spec_invoice() == self.spec_invoice(),
    {
        proof {
            use_type_invariant(&self);
        }
        let q = Q::profile();
        proof {
            let p = choose|p: Profile| #[trigger] P::describes(p) && !has_fatal(profile_findings(p, self.invoice));
            Q::lemma_widens(p, q, self.invoice);
        }
        Validated { invoice: self.invoice, marker: PhantomData }
    }
}

} // verus!
