//! The profiles this library ships: the core model, XRechnung 3.0 and its
//! Clean Vehicles variant, and the markers that name them at the type level.
//!
//! # Not "levels"
//!
//! It is tempting to model these as an ordered scale. There is no such
//! order: Peppol BIS Billing 3.0 and XRechnung are siblings, both CIUSes of
//! EN 16931, and each forbids things the other allows — XRechnung admits
//! BT-3 = `389` (self-billed), Peppol does not.

use vstd::prelude::*;

use crate::codes::texts;
use crate::edition::Edition;
use crate::invoice::Invoice;
use crate::text::{chars_of, has_prefix, starts_with, str_eq};
use crate::validation::engine::{
    core_indices, extra_positions, law_a_conformant_cius_only_adds_findings,
    law_valid_under_a_cius_is_valid_under_the_core, profile_findings, restriction_keys, run,
};
use crate::validation::profile::{Profile, ProfileMarker, Restriction, TermAccessor, Underlies};

verus! {

// ── Identifiers ───────────────────────────────────────────────────────────────

/// BT-24 of the core model.
pub open spec fn core_specification_id() -> Seq<char> {
    "urn:cen.eu:en16931:2017"@
}

/// BT-24 of XRechnung 3.0 — KoSIT's `$XR-CIUS-ID`.
pub open spec fn xrechnung_specification_id() -> Seq<char> {
    "urn:cen.eu:en16931:2017#compliant#urn:xeinkauf.de:kosit:xrechnung_3.0"@
}

/// BT-24 of the XRechnung Extension — `$XR-EXTENSION-ID`, which extends the
/// CIUS identifier rather than replacing it; `conformant` is §4.3's word for
/// an Extension.
pub open spec fn extension_specification_id() -> Seq<char> {
    "urn:cen.eu:en16931:2017#compliant#urn:xeinkauf.de:kosit:xrechnung_3.0#conformant#urn:xeinkauf.de:kosit:extension:xrechnung_3.0"@
}

/// BT-24 of the Clean Vehicles variant — `$XR-CVD-ID`: `compliant`, so KoSIT
/// labels it a CIUS, at version `0.9`.
pub open spec fn cvd_specification_id() -> Seq<char> {
    "urn:cen.eu:en16931:2017#compliant#urn:xeinkauf.de:kosit:xrechnung_3.0#compliant#urn:xeinkauf.de:kosit:xrechnung:cvd_0.9"@
}

/// BT-3 under `BR-DE-17`, verbatim from KoSIT's `supportedInvAndCNTypeCodes`:
/// eight of UNTDID 1001's codes, `389` among them.
pub open spec fn xrechnung_type_codes() -> Seq<Seq<char>> {
    seq!["326"@, "380"@, "384"@, "389"@, "381"@, "875"@, "876"@, "877"@]
}

/// BT-24 under `BR-DE-21`: the CIUS, the Extension and the CVD variant.
pub open spec fn xrechnung_specification_ids() -> Seq<Seq<char>> {
    seq![xrechnung_specification_id(), extension_specification_id(), cvd_specification_id()]
}

// ── What a profile states ─────────────────────────────────────────────────────

/// What a restriction states: `0` for `Mandatory`, `1` for `NotUsed`, `2`
/// for `CodeValues`; its id; its term; the values it admits.
pub open spec fn restriction_shape(r: Restriction) -> (int, Seq<char>, TermAccessor, Seq<Seq<char>>) {
    match r {
        Restriction::Mandatory { id, term } => (0, id@, term, Seq::empty()),
        Restriction::NotUsed { id, term } => (1, id@, term, Seq::empty()),
        Restriction::CodeValues { id, term, allowed } => (2, id@, term, texts(allowed@)),
    }
}

/// What a profile states: its name, BT-24 value, edition, underlying
/// specifications, restrictions, added rules, extension groups and
/// withdrawn rules.
pub type ProfileShape = (
    Seq<char>,
    Seq<char>,
    Edition,
    Seq<Seq<char>>,
    Seq<(int, Seq<char>, TermAccessor, Seq<Seq<char>>)>,
    Seq<Seq<char>>,
    Seq<Seq<char>>,
    Seq<Seq<char>>,
);

/// What a profile states, field by field, as text.
pub open spec fn profile_shape(p: Profile) -> ProfileShape {
    (
        p.id@,
        p.specification_id@,
        p.edition,
        texts(p.underlying@),
        p.restrictions@.map_values(|r: Restriction| restriction_shape(r)),
        texts(p.extra_rules@),
        texts(p.extensions@),
        texts(p.suppressed@),
    )
}

/// XRechnung's narrowings: ten terms made mandatory and two code lists
/// narrowed, each under its `BR-DE-*` id.
pub open spec fn xrechnung_restrictions() -> Seq<(int, Seq<char>, TermAccessor, Seq<Seq<char>>)> {
    seq![
        (0, "BR-DE-1"@, TermAccessor::PaymentInstructions, Seq::empty()),
        (0, "BR-DE-3"@, TermAccessor::SellerCity, Seq::empty()),
        (0, "BR-DE-4"@, TermAccessor::SellerPostCode, Seq::empty()),
        (0, "BR-DE-5"@, TermAccessor::SellerContactPoint, Seq::empty()),
        (0, "BR-DE-6"@, TermAccessor::SellerContactPhone, Seq::empty()),
        (0, "BR-DE-7"@, TermAccessor::SellerContactEmail, Seq::empty()),
        (0, "BR-DE-8"@, TermAccessor::BuyerCity, Seq::empty()),
        (0, "BR-DE-9"@, TermAccessor::BuyerPostCode, Seq::empty()),
        (0, "BR-DE-14"@, TermAccessor::VatRate, Seq::empty()),
        (0, "BR-DE-15"@, TermAccessor::BuyerReference, Seq::empty()),
        (2, "BR-DE-17"@, TermAccessor::TypeCode, xrechnung_type_codes()),
        (2, "BR-DE-21"@, TermAccessor::SpecificationId, xrechnung_specification_ids()),
    ]
}

/// XRechnung's conditional rules, by id.
pub open spec fn xrechnung_rule_ids() -> Seq<Seq<char>> {
    seq![
        "BR-DE-2"@,
        "BR-DE-10"@,
        "BR-DE-11"@,
        "BR-DE-18"@,
        "BR-DE-22"@,
        "BR-TMP-2"@,
        "BR-DE-TMP-32"@,
        "BR-DE-16"@,
        "BR-DE-19"@,
        "BR-DE-20"@,
        "BR-DE-23-a"@,
        "BR-DE-23-b"@,
        "BR-DE-24-a"@,
        "BR-DE-24-b"@,
        "BR-DE-25-a"@,
        "BR-DE-25-b"@,
        "BR-DE-26"@,
        "BR-DE-27"@,
        "BR-DE-28"@,
        "BR-DE-30"@,
        "BR-DE-31"@,
        "EN-SEPA-01"@,
    ]
}

/// The Clean Vehicles variant's own rules, by id.
pub open spec fn cvd_rule_ids() -> Seq<Seq<char>> {
    seq![
        "BR-DE-CVD-01"@,
        "BR-DE-CVD-02"@,
        "BR-DE-CVD-03"@,
        "BR-DE-CVD-04"@,
        "BR-DE-CVD-05"@,
        "BR-DE-CVD-06-a"@,
        "BR-DE-CVD-06-b"@,
    ]
}

// ── EN 16931 core ─────────────────────────────────────────────────────────────

/// The core model: nothing underlies it, and it restricts, adds and
/// withdraws nothing.
pub open spec fn en16931_shape() -> ProfileShape {
    (
        "EN 16931"@,
        core_specification_id(),
        Edition::En2017A1,
        Seq::empty(),
        Seq::empty(),
        Seq::empty(),
        Seq::empty(),
        Seq::empty(),
    )
}

/// The core invoice model, with no usage specification on top.
pub fn en16931() -> (p: Profile)
    ensures
        profile_shape(p) == en16931_shape(),
{
    let p = Profile {
        id: "EN 16931",
        specification_id: "urn:cen.eu:en16931:2017",
        edition: Edition::En2017A1,
        underlying: Vec::new(),
        restrictions: Vec::new(),
        extra_rules: Vec::new(),
        extensions: Vec::new(),
        suppressed: Vec::new(),
    };
    assert(profile_shape(p) =~~= en16931_shape());
    p
}

/// Type-level marker for [`en16931`].
#[derive(Debug, Clone, Copy, PartialEq, Eq)]
pub struct En16931;

impl ProfileMarker for En16931 {
    open spec fn describes(p: Profile) -> bool {
        profile_shape(p) == en16931_shape()
    }

    fn profile() -> (p: Profile) {
        en16931()
    }
}

// ── XRechnung ─────────────────────────────────────────────────────────────────

/// XRechnung 3.0: on the core model and Peppol BIS Billing 3.0, its twelve
/// narrowings and its own conditional rules, withdrawing nothing.
pub open spec fn xrechnung_shape() -> ProfileShape {
    (
        "XRechnung 3.0"@,
        xrechnung_specification_id(),
        Edition::En2017A1,
        seq!["EN 16931"@, "Peppol BIS Billing 3.0"@],
        xrechnung_restrictions(),
        xrechnung_rule_ids(),
        Seq::empty(),
        Seq::empty(),
    )
}

/// XRechnung's narrowings, as data.
fn xrechnung_restriction_list() -> (v: Vec<Restriction>)
    ensures
        v@.map_values(|r: Restriction| restriction_shape(r)) == xrechnung_restrictions(),
{
    let mut v: Vec<Restriction> = Vec::new();
    v.push(Restriction::Mandatory { id: "BR-DE-1", term: TermAccessor::PaymentInstructions });
    v.push(Restriction::Mandatory { id: "BR-DE-3", term: TermAccessor::SellerCity });
    v.push(Restriction::Mandatory { id: "BR-DE-4", term: TermAccessor::SellerPostCode });
    v.push(Restriction::Mandatory { id: "BR-DE-5", term: TermAccessor::SellerContactPoint });
    v.push(Restriction::Mandatory { id: "BR-DE-6", term: TermAccessor::SellerContactPhone });
    v.push(Restriction::Mandatory { id: "BR-DE-7", term: TermAccessor::SellerContactEmail });
    v.push(Restriction::Mandatory { id: "BR-DE-8", term: TermAccessor::BuyerCity });
    v.push(Restriction::Mandatory { id: "BR-DE-9", term: TermAccessor::BuyerPostCode });
    // CEN's BR-48 exempts category `O` from BT-119; BR-DE-14 has no category
    // exception, so an `O` breakdown states a rate under XRechnung.
    v.push(Restriction::Mandatory { id: "BR-DE-14", term: TermAccessor::VatRate });
    v.push(Restriction::Mandatory { id: "BR-DE-15", term: TermAccessor::BuyerReference });
    v.push(
        Restriction::CodeValues {
            id: "BR-DE-17",
            term: TermAccessor::TypeCode,
            allowed: vec!["326", "380", "384", "389", "381", "875", "876", "877"],
        },
    );
    v.push(
        Restriction::CodeValues {
            id: "BR-DE-21",
            term: TermAccessor::SpecificationId,
            allowed: vec![
                "urn:cen.eu:en16931:2017#compliant#urn:xeinkauf.de:kosit:xrechnung_3.0",
                "urn:cen.eu:en16931:2017#compliant#urn:xeinkauf.de:kosit:xrechnung_3.0#conformant#urn:xeinkauf.de:kosit:extension:xrechnung_3.0",
                "urn:cen.eu:en16931:2017#compliant#urn:xeinkauf.de:kosit:xrechnung_3.0#compliant#urn:xeinkauf.de:kosit:xrechnung:cvd_0.9",
            ],
        },
    );
    assert(v@.map_values(|r: Restriction| restriction_shape(r)) =~~= xrechnung_restrictions());
    v
}

/// XRechnung's conditional rules, by registry id.
fn xrechnung_rule_list() -> (v: Vec<&'static str>)
    ensures
        texts(v@) == xrechnung_rule_ids(),
{
    let v = vec![
        "BR-DE-2",
        "BR-DE-10",
        "BR-DE-11",
        "BR-DE-18",
        "BR-DE-22",
        "BR-TMP-2",
        "BR-DE-TMP-32",
        "BR-DE-16",
        "BR-DE-19",
        "BR-DE-20",
        "BR-DE-23-a",
        "BR-DE-23-b",
        "BR-DE-24-a",
        "BR-DE-24-b",
        "BR-DE-25-a",
        "BR-DE-25-b",
        "BR-DE-26",
        "BR-DE-27",
        "BR-DE-28",
        "BR-DE-30",
        "BR-DE-31",
        "EN-SEPA-01",
    ];
    assert(texts(v@) =~~= xrechnung_rule_ids());
    v
}

/// XRechnung 3.0 — the German CIUS. The terms it makes mandatory and the
/// code lists it narrows are data; the conditional payment-means rules, the
/// `BR-DE-16` identifier requirement, `BR-DE-26`'s corrected-invoice
/// reference, the `BR-DE-27/28` format checks, `BR-DE-18`'s Skonto grammar
/// and `BR-DE-22`'s filename uniqueness are its rules.
pub fn xrechnung() -> (p: Profile)
    ensures
        profile_shape(p) == xrechnung_shape(),
{
    let p = Profile {
        id: "XRechnung 3.0",
        specification_id: "urn:cen.eu:en16931:2017#compliant#urn:xeinkauf.de:kosit:xrechnung_3.0",
        edition: Edition::En2017A1,
        underlying: vec!["EN 16931", "Peppol BIS Billing 3.0"],
        restrictions: xrechnung_restriction_list(),
        extra_rules: xrechnung_rule_list(),
        extensions: Vec::new(),
        suppressed: Vec::new(),
    };
    assert(profile_shape(p) =~~= xrechnung_shape());
    p
}

/// Type-level marker for [`xrechnung`].
#[derive(Debug, Clone, Copy, PartialEq, Eq)]
pub struct XRechnung;

impl ProfileMarker for XRechnung {
    open spec fn describes(p: Profile) -> bool {
        profile_shape(p) == xrechnung_shape()
    }

    fn profile() -> (p: Profile) {
        xrechnung()
    }
}

/// §4.4.4: an invoice valid under XRechnung, which withdraws no core rule,
/// is valid under the core model.
impl Underlies<XRechnung> for En16931 {
    proof fn lemma_widens(p: Profile, q: Profile, inv: Invoice) {
        assert(texts(p.suppressed@).len() == 0);
        law_valid_under_a_cius_is_valid_under_the_core(p, inv);
        law_a_conformant_cius_only_adds_findings(q, inv);
        assert(texts(q.extra_rules@) =~= Seq::<Seq<char>>::empty());
        assert(extra_positions(texts(q.extra_rules@)) =~= Seq::<int>::empty());
        assert(run(Seq::<int>::empty(), inv) =~= Seq::empty());
        assert(q.restrictions@.map_values(|r: Restriction| restriction_shape(r)).len() == 0);
        assert(restriction_keys(q.restrictions@, inv, 0) =~= Seq::empty());
        assert(profile_findings(q, inv) =~= run(core_indices(), inv));
    }
}

// ── XRechnung CVD ─────────────────────────────────────────────────────────────

/// The Clean Vehicles variant: XRechnung's narrowings and rules, and its own
/// rules after them.
pub open spec fn cvd_shape() -> ProfileShape {
    (
        "XRechnung 3.0 CVD"@,
        cvd_specification_id(),
        Edition::En2017A1,
        seq!["EN 16931"@, "XRechnung 3.0"@],
        xrechnung_restrictions(),
        xrechnung_rule_ids() + cvd_rule_ids(),
        Seq::empty(),
        Seq::empty(),
    )
}

/// XRechnung 3.0 CVD — the EU Clean Vehicles Directive variant, a CIUS on a
/// CIUS. A public body can only count a vehicle it can identify, so the
/// invoice names the contract (BT-12), the tender (BT-17), and for at least
/// one line the vehicle category and its clean-vehicle attribute. It has its
/// own specification identifier, which is what selects it.
pub fn xrechnung_cvd() -> (p: Profile)
    ensures
        profile_shape(p) == cvd_shape(),
{
    let mut extra = xrechnung_rule_list();
    let ghost before = extra@;
    extra.push("BR-DE-CVD-01");
    extra.push("BR-DE-CVD-02");
    extra.push("BR-DE-CVD-03");
    extra.push("BR-DE-CVD-04");
    extra.push("BR-DE-CVD-05");
    extra.push("BR-DE-CVD-06-a");
    extra.push("BR-DE-CVD-06-b");
    assert(texts(extra@) =~~= texts(before) + cvd_rule_ids());
    let p = Profile {
        id: "XRechnung 3.0 CVD",
        specification_id: "urn:cen.eu:en16931:2017#compliant#urn:xeinkauf.de:kosit:xrechnung_3.0#compliant#urn:xeinkauf.de:kosit:xrechnung:cvd_0.9",
        edition: Edition::En2017A1,
        underlying: vec!["EN 16931", "XRechnung 3.0"],
        restrictions: xrechnung_restriction_list(),
        extra_rules: extra,
        extensions: Vec::new(),
        suppressed: Vec::new(),
    };
    assert(profile_shape(p) =~~= cvd_shape());
    p
}

/// Type-level marker for [`xrechnung_cvd`].
#[derive(Debug, Clone, Copy, PartialEq, Eq)]
pub struct XRechnungCvd;

impl ProfileMarker for XRechnungCvd {
    open spec fn describes(p: Profile) -> bool {
        profile_shape(p) == cvd_shape()
    }

    fn profile() -> (p: Profile) {
        xrechnung_cvd()
    }
}

// ── Lookup ────────────────────────────────────────────────────────────────────

/// Find the profile a document declares in BT-24.
///
/// §7.6: the invoice carries the identifier of the rules it was made under,
/// so the receiver can process it accordingly. A shipped profile's own
/// identifier selects it; any other identifier that extends XRechnung's is a
/// KoSIT variant of it, and is at minimum an XRechnung document. Validating an
/// invoice that declares XRechnung against core-only rules is the most common
/// way to ship a document a validator then rejects.
pub fn for_specification_id(id: &str) -> (r: Option<Profile>)
    ensures
        match r {
            Some(p) => if id@ == core_specification_id() {
                profile_shape(p) == en16931_shape()
            } else if id@ == cvd_specification_id() {
                profile_shape(p) == cvd_shape()
            } else {
                starts_with(id@, xrechnung_specification_id()) && profile_shape(p) == xrechnung_shape()
            },
            None => id@ != core_specification_id() && !starts_with(id@, xrechnung_specification_id()),
        },
{
    let xr = "urn:cen.eu:en16931:2017#compliant#urn:xeinkauf.de:kosit:xrechnung_3.0";
    let cvd = "urn:cen.eu:en16931:2017#compliant#urn:xeinkauf.de:kosit:xrechnung_3.0#compliant#urn:xeinkauf.de:kosit:xrechnung:cvd_0.9";
    if str_eq(id, "urn:cen.eu:en16931:2017") {
        Some(en16931())
    } else if str_eq(id, cvd) {
        proof {
            reveal_strlit("urn:cen.eu:en16931:2017#compliant#urn:xeinkauf.de:kosit:xrechnung_3.0");
            reveal_strlit("urn:cen.eu:en16931:2017#compliant#urn:xeinkauf.de:kosit:xrechnung_3.0#compliant#urn:xeinkauf.de:kosit:xrechnung:cvd_0.9");
            assert(cvd@.subrange(0, xr@.len() as int) =~= xr@);
        }
        Some(xrechnung_cvd())
    } else if has_prefix(&chars_of(id), &chars_of(xr)) {
        Some(xrechnung())
    } else {
        None
    }
}

} // verus!
