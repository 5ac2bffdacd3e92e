//! The registry: every rule this library evaluates, with its id, severity,
//! provenance, the terms it reads and its authority's wording.

use vstd::prelude::*;

use crate::bt::BtId;
use crate::text::{push_str, string_of};
use crate::validation::{Rule, Severity, Source, make_rule, rule_key, rule_keys};

verus! {

/// What a rule's contract fixes: id, severity, provenance, terms and wording.
pub type RuleKey = (Seq<char>, Severity, Source, Seq<BtId>, Seq<char>);

/// The keys of two lists appended are the two lists' keys appended.
pub proof fn lemma_rule_keys_append(a: Seq<Rule>, b: Seq<Rule>)
    ensures
        rule_keys(a + b) == rule_keys(a) + rule_keys(b),
{
    assert(rule_keys(a + b) =~= rule_keys(a) + rule_keys(b));
}

/// The core rules that read the model directly, part 1 of 4.
pub open spec fn general_0_keys() -> Seq<RuleKey> {
    seq![
        (
            "BR-01"@,
            Severity::Fatal,
            Source::Both,
            seq![BtId(24)],
            "An Invoice shall have a Specification identifier (BT-24)."@,
        ),
        (
            "BR-02"@,
            Severity::Fatal,
            Source::Both,
            seq![BtId(1)],
            "An Invoice shall have an Invoice number (BT-1)."@,
        ),
        (
            "BR-03"@,
            Severity::Fatal,
            Source::Both,
            seq![BtId(2)],
            "An Invoice shall have an Invoice issue date (BT-2)."@,
        ),
        (
            "BR-04"@,
            Severity::Fatal,
            Source::Both,
            seq![BtId(3)],
            "An Invoice shall have an Invoice type code (BT-3)."@,
        ),
        (
            "BR-05"@,
            Severity::Fatal,
            Source::Both,
            seq![BtId(5)],
            "An Invoice shall have an Invoice currency code (BT-5)."@,
        ),
        (
            "BR-06"@,
            Severity::Fatal,
            Source::Both,
            seq![BtId(27)],
            "An Invoice shall contain the Seller name (BT-27)."@,
        ),
        (
            "BR-07"@,
            Severity::Fatal,
            Source::Both,
            seq![BtId(44)],
            "An Invoice shall contain the Buyer name (BT-44)."@,
        ),
        (
            "BR-09"@,
            Severity::Fatal,
            Source::Both,
            seq![BtId(40)],
            "The Seller postal address (BG-5) shall contain a Seller country code (BT-40)."@,
        ),
        (
            "BR-11"@,
            Severity::Fatal,
            Source::Both,
            seq![BtId(55)],
            "The Buyer postal address shall contain a Buyer country code (BT-55)."@,
        ),
    ]
}

fn general_0_rules() -> (v: Vec<Rule>)
    ensures
        rule_keys(v@) == general_0_keys(),
{
    let mut v: Vec<Rule> = Vec::new();
    v.push(make_rule("BR-01", Severity::Fatal, Source::Both, vec![BtId(24)], "An Invoice shall have a Specification identifier (BT-24)."));
    v.push(make_rule("BR-02", Severity::Fatal, Source::Both, vec![BtId(1)], "An Invoice shall have an Invoice number (BT-1)."));
    v.push(make_rule("BR-03", Severity::Fatal, Source::Both, vec![BtId(2)], "An Invoice shall have an Invoice issue date (BT-2)."));
    v.push(make_rule("BR-04", Severity::Fatal, Source::Both, vec![BtId(3)], "An Invoice shall have an Invoice type code (BT-3)."));
    v.push(make_rule("BR-05", Severity::Fatal, Source::Both, vec![BtId(5)], "An Invoice shall have an Invoice currency code (BT-5)."));
    v.push(make_rule("BR-06", Severity::Fatal, Source::Both, vec![BtId(27)], "An Invoice shall contain the Seller name (BT-27)."));
    v.push(make_rule("BR-07", Severity::Fatal, Source::Both, vec![BtId(44)], "An Invoice shall contain the Buyer name (BT-44)."));
    v.push(make_rule("BR-09", Severity::Fatal, Source::Both, vec![BtId(40)], "The Seller postal address (BG-5) shall contain a Seller country code (BT-40)."));
    v.push(make_rule("BR-11", Severity::Fatal, Source::Both, vec![BtId(55)], "The Buyer postal address shall contain a Buyer country code (BT-55)."));
    assert(rule_keys(v@) =~~= general_0_keys());
    v
}

/// The core rules that read the model directly, part 2 of 4.
pub open spec fn general_1_keys() -> Seq<RuleKey> {
    seq![
        (
            "BR-16"@,
            Severity::Fatal,
            Source::Both,
            seq![],
            "An Invoice shall have at least one Invoice line (BG-25)."@,
        ),
        (
            "BR-21"@,
            Severity::Fatal,
            Source::Both,
            seq![BtId(126)],
            "Each Invoice line (BG-25) shall have an Invoice line identifier (BT-126)."@,
        ),
        (
            "BR-23"@,
            Severity::Fatal,
            Source::Both,
            seq![BtId(130)],
            "An Invoice line (BG-25) shall have an Invoiced quantity unit of measure code (BT-130)."@,
        ),
        (
            "BR-25"@,
            Severity::Fatal,
            Source::Both,
            seq![BtId(153)],
            "Each Invoice line (BG-25) shall contain the Item name (BT-153)."@,
        ),
        (
            "BR-27"@,
            Severity::Fatal,
            Source::Both,
            seq![BtId(146)],
            "The Item net price (BT-146) shall NOT be negative."@,
        ),
        (
            "BR-28"@,
            Severity::Fatal,
            Source::Both,
            seq![BtId(148)],
            "The Item gross price (BT-148) shall NOT be negative."@,
        ),
        (
            "BR-29"@,
            Severity::Fatal,
            Source::Both,
            seq![BtId(73), BtId(74)],
            "If both Invoicing period start date (BT-73) and Invoicing period end date (BT-74) are given then the Invoicing period end date (BT-74) shall be later or equal to the Invoicing period start date (BT-73)."@,
        ),
        (
            "BR-30"@,
            Severity::Fatal,
            Source::Both,
            seq![BtId(134), BtId(135)],
            "If both Invoice line period start date (BT-134) and Invoice line period end date (BT-135) are given then the Invoice line period end date (BT-135) shall be later or equal to the Invoice line period start date (BT-134)."@,
        ),
        (
            "BR-47"@,
            Severity::Fatal,
            Source::Both,
            seq![BtId(118)],
            "Each VAT breakdown (BG-23) shall be defined through a VAT category code (BT-118)."@,
        ),
    ]
}

fn general_1_rules() -> (v: Vec<Rule>)
    ensures
        rule_keys(v@) == general_1_keys(),
{
    let mut v: Vec<Rule> = Vec::new();
    v.push(make_rule("BR-16", Severity::Fatal, Source::Both, vec![], "An Invoice shall have at least one Invoice line (BG-25)."));
    v.push(make_rule("BR-21", Severity::Fatal, Source::Both, vec![BtId(126)], "Each Invoice line (BG-25) shall have an Invoice line identifier (BT-126)."));
    v.push(make_rule("BR-23", Severity::Fatal, Source::Both, vec![BtId(130)], "An Invoice line (BG-25) shall have an Invoiced quantity unit of measure code (BT-130)."));
    v.push(make_rule("BR-25", Severity::Fatal, Source::Both, vec![BtId(153)], "Each Invoice line (BG-25) shall contain the Item name (BT-153)."));
    v.push(make_rule("BR-27", Severity::Fatal, Source::Both, vec![BtId(146)], "The Item net price (BT-146) shall NOT be negative."));
    v.push(make_rule("BR-28", Severity::Fatal, Source::Both, vec![BtId(148)], "The Item gross price (BT-148) shall NOT be negative."));
    v.push(make_rule("BR-29", Severity::Fatal, Source::Both, vec![BtId(73), BtId(74)], "If both Invoicing period start date (BT-73) and Invoicing period end date (BT-74) are given then the Invoicing period end date (BT-74) shall be later or equal to the Invoicing period start date (BT-73)."));
    v.push(make_rule("BR-30", Severity::Fatal, Source::Both, vec![BtId(134), BtId(135)], "If both Invoice line period start date (BT-134) and Invoice line period end date (BT-135) are given then the Invoice line period end date (BT-135) shall be later or equal to the Invoice line period start date (BT-134)."));
    v.push(make_rule("BR-47", Severity::Fatal, Source::Both, vec![BtId(118)], "Each VAT breakdown (BG-23) shall be defined through a VAT category code (BT-118)."));
    assert(rule_keys(v@) =~~= general_1_keys());
    v
}

/// The core rules that read the model directly, part 3 of 4.
pub open spec fn general_2_keys() -> Seq<RuleKey> {
    seq![
        (
            "BR-48"@,
            Severity::Fatal,
            Source::Both,
            seq![BtId(119)],
            "Each VAT breakdown (BG-23) shall have a VAT category rate (BT-119), except if the Invoice is not subject to VAT."@,
        ),
        (
            "BR-CL-17"@,
            Severity::Fatal,
            Source::ArtefactOnly,
            seq![BtId(118)],
            "Invoice tax categories MUST be coded using UNCL5305 code list."@,
        ),
        (
            "BR-CL-18"@,
            Severity::Fatal,
            Source::ArtefactOnly,
            seq![BtId(151)],
            "Invoice tax categories MUST be coded using UNCL5305 code list."@,
        ),
        (
            "BR-CO-04"@,
            Severity::Fatal,
            Source::Both,
            seq![BtId(151)],
            "Each Invoice line (BG-25) shall be categorized with an Invoiced item VAT category code (BT-151)."@,
        ),
        (
            "BR-CO-10"@,
            Severity::Fatal,
            Source::Both,
            seq![BtId(106), BtId(131)],
            "Sum of Invoice line net amount (BT-106) = Σ Invoice line net amount (BT-131)."@,
        ),
        (
            "BR-CO-11"@,
            Severity::Fatal,
            Source::Both,
            seq![BtId(107), BtId(92)],
            "Sum of allowances on document level (BT-107) = Σ Document level allowance amount (BT-92)."@,
        ),
        (
            "BR-CO-12"@,
            Severity::Fatal,
            Source::Both,
            seq![BtId(108), BtId(99)],
            "Sum of charges on document level (BT-108) = Σ Document level charge amount (BT-99)."@,
        ),
        (
            "BR-CO-13"@,
            Severity::Fatal,
            Source::Both,
            seq![BtId(109), BtId(106), BtId(107), BtId(108)],
            "Invoice total amount without VAT (BT-109) = Σ Invoice line net amount (BT-131) - Sum of allowances on document level (BT-107) + Sum of charges on document level (BT-108)."@,
        ),
        (
            "BR-CO-14"@,
            Severity::Fatal,
            Source::Both,
            seq![BtId(110), BtId(117)],
            "Invoice total VAT amount (BT-110) = Σ VAT category tax amount (BT-117)."@,
        ),
    ]
}

fn general_2_rules() -> (v: Vec<Rule>)
    ensures
        rule_keys(v@) == general_2_keys(),
{
    let mut v: Vec<Rule> = Vec::new();
    v.push(make_rule("BR-48", Severity::Fatal, Source::Both, vec![BtId(119)], "Each VAT breakdown (BG-23) shall have a VAT category rate (BT-119), except if the Invoice is not subject to VAT."));
    v.push(make_rule("BR-CL-17", Severity::Fatal, Source::ArtefactOnly, vec![BtId(118)], "Invoice tax categories MUST be coded using UNCL5305 code list."));
    v.push(make_rule("BR-CL-18", Severity::Fatal, Source::ArtefactOnly, vec![BtId(151)], "Invoice tax categories MUST be coded using UNCL5305 code list."));
    v.push(make_rule("BR-CO-04", Severity::Fatal, Source::Both, vec![BtId(151)], "Each Invoice line (BG-25) shall be categorized with an Invoiced item VAT category code (BT-151)."));
    v.push(make_rule("BR-CO-10", Severity::Fatal, Source::Both, vec![BtId(106), BtId(131)], "Sum of Invoice line net amount (BT-106) = Σ Invoice line net amount (BT-131)."));
    v.push(make_rule("BR-CO-11", Severity::Fatal, Source::Both, vec![BtId(107), BtId(92)], "Sum of allowances on document level (BT-107) = Σ Document level allowance amount (BT-92)."));
    v.push(make_rule("BR-CO-12", Severity::Fatal, Source::Both, vec![BtId(108), BtId(99)], "Sum of charges on document level (BT-108) = Σ Document level charge amount (BT-99)."));
    v.push(make_rule("BR-CO-13", Severity::Fatal, Source::Both, vec![BtId(109), BtId(106), BtId(107), BtId(108)], "Invoice total amount without VAT (BT-109) = Σ Invoice line net amount (BT-131) - Sum of allowances on document level (BT-107) + Sum of charges on document level (BT-108)."));
    v.push(make_rule("BR-CO-14", Severity::Fatal, Source::Both, vec![BtId(110), BtId(117)], "Invoice total VAT amount (BT-110) = Σ VAT category tax amount (BT-117)."));
    assert(rule_keys(v@) =~~= general_2_keys());
    v
}

/// The core rules that read the model directly, part 4 of 4.
pub open spec fn general_3_keys() -> Seq<RuleKey> {
    seq![
        (
            "BR-CO-15"@,
            Severity::Fatal,
            Source::Both,
            seq![BtId(112), BtId(109), BtId(110)],
            "Invoice total amount with VAT (BT-112) = Invoice total amount without VAT (BT-109) + Invoice total VAT amount (BT-110)."@,
        ),
        (
            "BR-CO-16"@,
            Severity::Fatal,
            Source::Both,
            seq![BtId(115), BtId(112), BtId(113), BtId(114)],
            "Amount due for payment (BT-115) = Invoice total amount with VAT (BT-112) -Paid amount (BT-113) +Rounding amount (BT-114)."@,
        ),
        (
            "BR-CO-17"@,
            Severity::Fatal,
            Source::Both,
            seq![BtId(117), BtId(116), BtId(119)],
            "VAT category tax amount (BT-117) = VAT category taxable amount (BT-116) x (VAT category rate (BT-119) / 100), rounded to two decimals."@,
        ),
        (
            "BR-CO-18"@,
            Severity::Fatal,
            Source::Both,
            seq![],
            "An Invoice shall at least have one VAT breakdown group (BG-23)."@,
        ),
        (
            "BR-CO-19"@,
            Severity::Fatal,
            Source::Both,
            seq![BtId(73), BtId(74)],
            "If Invoicing period (BG-14) is used, the Invoicing period start date (BT-73) or the Invoicing period end date (BT-74) shall be filled, or both."@,
        ),
        (
            "BR-CO-25"@,
            Severity::Fatal,
            Source::StandardOnly,
            seq![BtId(115), BtId(9), BtId(20)],
            "In case the Amount due for payment (BT-115) is positive, either the Payment due date (BT-9) or the Payment terms (BT-20) shall be present."@,
        ),
        (
            "EN-CURRENCY-01"@,
            Severity::Fatal,
            Source::Crate,
            seq![BtId(5)],
            "The Invoice currency code (BT-5) shall not be XXX. ISO 4217 XXX means \"no currency involved\", and BR-CL-04 accepts it because it is a real ISO code — so a document that was never configured validates as an invoice denominated in nothing."@,
        ),
    ]
}

fn general_3_rules() -> (v: Vec<Rule>)
    ensures
        rule_keys(v@) == general_3_keys(),
{
    let mut v: Vec<Rule> = Vec::new();
    v.push(make_rule("BR-CO-15", Severity::Fatal, Source::Both, vec![BtId(112), BtId(109), BtId(110)], "Invoice total amount with VAT (BT-112) = Invoice total amount without VAT (BT-109) + Invoice total VAT amount (BT-110)."));
    v.push(make_rule("BR-CO-16", Severity::Fatal, Source::Both, vec![BtId(115), BtId(112), BtId(113), BtId(114)], "Amount due for payment (BT-115) = Invoice total amount with VAT (BT-112) -Paid amount (BT-113) +Rounding amount (BT-114)."));
    v.push(make_rule("BR-CO-17", Severity::Fatal, Source::Both, vec![BtId(117), BtId(116), BtId(119)], "VAT category tax amount (BT-117) = VAT category taxable amount (BT-116) x (VAT category rate (BT-119) / 100), rounded to two decimals."));
    v.push(make_rule("BR-CO-18", Severity::Fatal, Source::Both, vec![], "An Invoice shall at least have one VAT breakdown group (BG-23)."));
    v.push(make_rule("BR-CO-19", Severity::Fatal, Source::Both, vec![BtId(73), BtId(74)], "If Invoicing period (BG-14) is used, the Invoicing period start date (BT-73) or the Invoicing period end date (BT-74) shall be filled, or both."));
    v.push(make_rule("BR-CO-25", Severity::Fatal, Source::StandardOnly, vec![BtId(115), BtId(9), BtId(20)], "In case the Amount due for payment (BT-115) is positive, either the Payment due date (BT-9) or the Payment terms (BT-20) shall be present."));
    v.push(make_rule("EN-CURRENCY-01", Severity::Fatal, Source::Crate, vec![BtId(5)], "The Invoice currency code (BT-5) shall not be XXX. ISO 4217 XXX means \"no currency involved\", and BR-CL-04 accepts it because it is a real ISO code — so a document that was never configured validates as an invoice denominated in nothing."));
    assert(rule_keys(v@) =~~= general_3_keys());
    v
}

/// The core rules that read the model directly.
pub open spec fn general_keys() -> Seq<RuleKey> {
    general_0_keys() + general_1_keys() + general_2_keys() + general_3_keys()
}

/// The core rules that read the model directly.
pub fn general_rules() -> (v: Vec<Rule>)
    ensures
        rule_keys(v@) == general_keys(),
{
    let mut v = general_0_rules();
    let mut more = general_1_rules();
    proof { lemma_rule_keys_append(v@, more@); }
    v.append(&mut more);
    let mut more = general_2_rules();
    proof { lemma_rule_keys_append(v@, more@); }
    v.append(&mut more);
    let mut more = general_3_rules();
    proof { lemma_rule_keys_append(v@, more@); }
    v.append(&mut more);
    v
}

/// The split-payment rules and the exclusivity of `O`, part 1 of 1.
pub open spec fn category_extras_0_keys() -> Seq<RuleKey> {
    seq![
        (
            "BR-B-01"@,
            Severity::Fatal,
            Source::ArtefactOnly,
            seq![BtId(40), BtId(55)],
            "An Invoice where the VAT category code (BT-151, BT-95 or BT-102) is \"Split payment\" shall be a domestic Italian invoice."@,
        ),
        (
            "BR-B-02"@,
            Severity::Fatal,
            Source::ArtefactOnly,
            seq![BtId(151)],
            "An Invoice that contains a line, allowance or charge where the VAT category code is \"Split payment\" shall not contain one where it is \"Standard rated\"."@,
        ),
        (
            "BR-O-11"@,
            Severity::Fatal,
            Source::Both,
            seq![BtId(118)],
            "An Invoice that contains a VAT breakdown group (BG-23) with a VAT category code (BT-118) \"Not subject to VAT\" shall not contain other VAT breakdown groups (BG-23)."@,
        ),
        (
            "BR-O-12"@,
            Severity::Fatal,
            Source::Both,
            seq![BtId(151)],
            "An Invoice that contains a VAT breakdown group (BG-23) with a VAT category code (BT-118) \"Not subject to VAT\" shall not contain an Invoice line (BG-25), a Document level allowance (BG-20) or a Document level charge (BG-21) in another category."@,
        ),
        (
            "BR-O-13"@,
            Severity::Fatal,
            Source::Both,
            seq![BtId(95)],
            "An Invoice that contains a VAT breakdown group (BG-23) with a VAT category code (BT-118) \"Not subject to VAT\" shall not contain Document level allowances (BG-20) where the VAT category code (BT-95) is not \"Not subject to VAT\"."@,
        ),
        (
            "BR-O-14"@,
            Severity::Fatal,
            Source::Both,
            seq![BtId(102)],
            "An Invoice that contains a VAT breakdown group (BG-23) with a VAT category code (BT-118) \"Not subject to VAT\" shall not contain Document level charges (BG-21) where the VAT category code (BT-102) is not \"Not subject to VAT\"."@,
        ),
    ]
}

fn category_extras_0_rules() -> (v: Vec<Rule>)
    ensures
        rule_keys(v@) == category_extras_0_keys(),
{
    let mut v: Vec<Rule> = Vec::new();
    v.push(make_rule("BR-B-01", Severity::Fatal, Source::ArtefactOnly, vec![BtId(40), BtId(55)], "An Invoice where the VAT category code (BT-151, BT-95 or BT-102) is \"Split payment\" shall be a domestic Italian invoice."));
    v.push(make_rule("BR-B-02", Severity::Fatal, Source::ArtefactOnly, vec![BtId(151)], "An Invoice that contains a line, allowance or charge where the VAT category code is \"Split payment\" shall not contain one where it is \"Standard rated\"."));
    v.push(make_rule("BR-O-11", Severity::Fatal, Source::Both, vec![BtId(118)], "An Invoice that contains a VAT breakdown group (BG-23) with a VAT category code (BT-118) \"Not subject to VAT\" shall not contain other VAT breakdown groups (BG-23)."));
    v.push(make_rule("BR-O-12", Severity::Fatal, Source::Both, vec![BtId(151)], "An Invoice that contains a VAT breakdown group (BG-23) with a VAT category code (BT-118) \"Not subject to VAT\" shall not contain an Invoice line (BG-25), a Document level allowance (BG-20) or a Document level charge (BG-21) in another category."));
    v.push(make_rule("BR-O-13", Severity::Fatal, Source::Both, vec![BtId(95)], "An Invoice that contains a VAT breakdown group (BG-23) with a VAT category code (BT-118) \"Not subject to VAT\" shall not contain Document level allowances (BG-20) where the VAT category code (BT-95) is not \"Not subject to VAT\"."));
    v.push(make_rule("BR-O-14", Severity::Fatal, Source::Both, vec![BtId(102)], "An Invoice that contains a VAT breakdown group (BG-23) with a VAT category code (BT-118) \"Not subject to VAT\" shall not contain Document level charges (BG-21) where the VAT category code (BT-102) is not \"Not subject to VAT\"."));
    assert(rule_keys(v@) =~~= category_extras_0_keys());
    v
}

/// The split-payment rules and the exclusivity of `O`.
pub open spec fn category_extras_keys() -> Seq<RuleKey> {
    category_extras_0_keys()
}

/// The split-payment rules and the exclusivity of `O`.
pub fn category_extras_rules() -> (v: Vec<Rule>)
    ensures
        rule_keys(v@) == category_extras_keys(),
{
    let mut v = category_extras_0_rules();
    v
}

/// XRechnung's conditional rules, part 1 of 3.
pub open spec fn xrechnung_0_keys() -> Seq<RuleKey> {
    seq![
        (
            "BR-DE-2"@,
            Severity::Fatal,
            Source::ArtefactOnly,
            seq![BtId(41), BtId(42), BtId(43)],
            "Die Gruppe \"SELLER CONTACT\" (BG-6) muss übermittelt werden."@,
        ),
        (
            "BR-DE-10"@,
            Severity::Fatal,
            Source::ArtefactOnly,
            seq![BtId(77)],
            "Das Element \"Deliver to city\" (BT-77) muss übermittelt werden, wenn die Gruppe \"DELIVER TO ADDRESS\" (BG-15) übermittelt wird."@,
        ),
        (
            "BR-DE-11"@,
            Severity::Fatal,
            Source::ArtefactOnly,
            seq![BtId(78)],
            "Das Element \"Deliver to post code\" (BT-78) muss übermittelt werden, wenn die Gruppe \"DELIVER TO ADDRESS\" (BG-15) übermittelt wird."@,
        ),
        (
            "BR-DE-18"@,
            Severity::Fatal,
            Source::ArtefactOnly,
            seq![BtId(20)],
            "Skonto-Zeilen in BT-20 müssen der Form #SKONTO#TAGE=n#PROZENT=n.nn[#BASISBETRAG=n.nn]# entsprechen."@,
        ),
        (
            "BR-DE-22"@,
            Severity::Fatal,
            Source::ArtefactOnly,
            seq![BtId(125)],
            "Das \"filename\"-Attribut aller \"EmbeddedDocumentBinaryObject\"-Elemente muss eindeutig sein."@,
        ),
        (
            "BR-TMP-2"@,
            Severity::Warning,
            Source::ArtefactOnly,
            seq![BtId(124)],
            "BT-124 \"External document location\" muss eine absolute URL mit gültigem Schema enthalten."@,
        ),
        (
            "BR-DE-TMP-32"@,
            Severity::Info,
            Source::ArtefactOnly,
            seq![BtId(72), BtId(73), BtId(134)],
            "Eine Rechnung sollte zur Angabe des Liefer-/Leistungsdatums entweder BT-72, BG-14 oder BG-26 (in allen Rechnungspositionen) enthalten."@,
        ),
        (
            "BR-DE-16"@,
            Severity::Fatal,
            Source::ArtefactOnly,
            seq![BtId(31), BtId(32)],
            "Wenn in einer Rechnung die Steuercodes S, Z, E, AE, K, G, L oder M verwendet werden, muss mindestens eines der Elemente \"Seller VAT identifier\" (BT-31), \"Seller tax registration identifier\" (BT-32) oder \"Seller tax representative VAT identifier\" (BT-63) übermittelt werden."@,
        ),
        (
            "BR-DE-19"@,
            Severity::Warning,
            Source::ArtefactOnly,
            seq![BtId(84)],
            "\"Payment account identifier\" (BT-84) soll eine korrekte IBAN enthalten, wenn in \"Payment means type code\" (BT-81) der Code 58 (SEPA credit transfer) angegeben ist."@,
        ),
    ]
}

fn xrechnung_0_rules() -> (v: Vec<Rule>)
    ensures
        rule_keys(v@) == xrechnung_0_keys(),
{
    let mut v: Vec<Rule> = Vec::new();
    v.push(make_rule("BR-DE-2", Severity::Fatal, Source::ArtefactOnly, vec![BtId(41), BtId(42), BtId(43)], "Die Gruppe \"SELLER CONTACT\" (BG-6) muss übermittelt werden."));
    v.push(make_rule("BR-DE-10", Severity::Fatal, Source::ArtefactOnly, vec![BtId(77)], "Das Element \"Deliver to city\" (BT-77) muss übermittelt werden, wenn die Gruppe \"DELIVER TO ADDRESS\" (BG-15) übermittelt wird."));
    v.push(make_rule("BR-DE-11", Severity::Fatal, Source::ArtefactOnly, vec![BtId(78)], "Das Element \"Deliver to post code\" (BT-78) muss übermittelt werden, wenn die Gruppe \"DELIVER TO ADDRESS\" (BG-15) übermittelt wird."));
    v.push(make_rule("BR-DE-18", Severity::Fatal, Source::ArtefactOnly, vec![BtId(20)], "Skonto-Zeilen in BT-20 müssen der Form #SKONTO#TAGE=n#PROZENT=n.nn[#BASISBETRAG=n.nn]# entsprechen."));
    v.push(make_rule("BR-DE-22", Severity::Fatal, Source::ArtefactOnly, vec![BtId(125)], "Das \"filename\"-Attribut aller \"EmbeddedDocumentBinaryObject\"-Elemente muss eindeutig sein."));
    v.push(make_rule("BR-TMP-2", Severity::Warning, Source::ArtefactOnly, vec![BtId(124)], "BT-124 \"External document location\" muss eine absolute URL mit gültigem Schema enthalten."));
    v.push(make_rule("BR-DE-TMP-32", Severity::Info, Source::ArtefactOnly, vec![BtId(72), BtId(73), BtId(134)], "Eine Rechnung sollte zur Angabe des Liefer-/Leistungsdatums entweder BT-72, BG-14 oder BG-26 (in allen Rechnungspositionen) enthalten."));
    v.push(make_rule("BR-DE-16", Severity::Fatal, Source::ArtefactOnly, vec![BtId(31), BtId(32)], "Wenn in einer Rechnung die Steuercodes S, Z, E, AE, K, G, L oder M verwendet werden, muss mindestens eines der Elemente \"Seller VAT identifier\" (BT-31), \"Seller tax registration identifier\" (BT-32) oder \"Seller tax representative VAT identifier\" (BT-63) übermittelt werden."));
    v.push(make_rule("BR-DE-19", Severity::Warning, Source::ArtefactOnly, vec![BtId(84)], "\"Payment account identifier\" (BT-84) soll eine korrekte IBAN enthalten, wenn in \"Payment means type code\" (BT-81) der Code 58 (SEPA credit transfer) angegeben ist."));
    assert(rule_keys(v@) =~~= xrechnung_0_keys());
    v
}

/// XRechnung's conditional rules, part 2 of 3.
pub open spec fn xrechnung_1_keys() -> Seq<RuleKey> {
    seq![
        (
            "BR-DE-20"@,
            Severity::Warning,
            Source::ArtefactOnly,
            seq![BtId(91)],
            "\"Debited account identifier\" (BT-91) soll eine korrekte IBAN enthalten, wenn in \"Payment means type code\" (BT-81) der Code 59 (SEPA direct debit) angegeben ist."@,
        ),
        (
            "BR-DE-23-a"@,
            Severity::Fatal,
            Source::ArtefactOnly,
            seq![BtId(81)],
            "Wenn BT-81 \"Payment means type code\" einen Schlüssel für Überweisungen enthält (30, 58), muss BG-17 \"CREDIT TRANSFER\" übermittelt werden."@,
        ),
        (
            "BR-DE-23-b"@,
            Severity::Fatal,
            Source::ArtefactOnly,
            seq![],
            "Wenn BT-81 einen Schlüssel für Überweisungen enthält (30, 58), dürfen BG-18 und BG-19 nicht übermittelt werden."@,
        ),
        (
            "BR-DE-24-a"@,
            Severity::Fatal,
            Source::ArtefactOnly,
            seq![BtId(81)],
            "Wenn BT-81 \"Payment means type code\" einen Schlüssel für Kartenzahlungen enthält (48, 54, 55), muss genau BG-18 \"PAYMENT CARD INFORMATION\" übermittelt werden."@,
        ),
        (
            "BR-DE-24-b"@,
            Severity::Fatal,
            Source::ArtefactOnly,
            seq![],
            "Wenn BT-81 einen Schlüssel für Kartenzahlungen enthält (48, 54, 55), dürfen BG-17 und BG-19 nicht übermittelt werden."@,
        ),
        (
            "BR-DE-25-a"@,
            Severity::Fatal,
            Source::ArtefactOnly,
            seq![BtId(81)],
            "Wenn BT-81 \"Payment means type code\" einen Schlüssel für Lastschriften enthält (59), muss genau BG-19 \"DIRECT DEBIT\" übermittelt werden."@,
        ),
        (
            "BR-DE-25-b"@,
            Severity::Fatal,
            Source::ArtefactOnly,
            seq![],
            "Wenn BT-81 einen Schlüssel für Lastschriften enthält (59), dürfen BG-17 und BG-18 nicht übermittelt werden."@,
        ),
        (
            "BR-DE-26"@,
            Severity::Fatal,
            Source::ArtefactOnly,
            seq![BtId(3), BtId(25)],
            "Wenn im Element \"Invoice type code\" (BT-3) der Code 384 (Corrected invoice) übergeben wird, soll PRECEDING INVOICE REFERENCE (BG-3) mindestens einmal übermittelt werden."@,
        ),
        (
            "BR-DE-27"@,
            Severity::Fatal,
            Source::ArtefactOnly,
            seq![BtId(42)],
            "In BT-42 sollen mindestens drei Ziffern enthalten sein."@,
        ),
    ]
}

fn xrechnung_1_rules() -> (v: Vec<Rule>)
    ensures
        rule_keys(v@) == xrechnung_1_keys(),
{
    let mut v: Vec<Rule> = Vec::new();
    v.push(make_rule("BR-DE-20", Severity::Warning, Source::ArtefactOnly, vec![BtId(91)], "\"Debited account identifier\" (BT-91) soll eine korrekte IBAN enthalten, wenn in \"Payment means type code\" (BT-81) der Code 59 (SEPA direct debit) angegeben ist."));
    v.push(make_rule("BR-DE-23-a", Severity::Fatal, Source::ArtefactOnly, vec![BtId(81)], "Wenn BT-81 \"Payment means type code\" einen Schlüssel für Überweisungen enthält (30, 58), muss BG-17 \"CREDIT TRANSFER\" übermittelt werden."));
    v.push(make_rule("BR-DE-23-b", Severity::Fatal, Source::ArtefactOnly, vec![], "Wenn BT-81 einen Schlüssel für Überweisungen enthält (30, 58), dürfen BG-18 und BG-19 nicht übermittelt werden."));
    v.push(make_rule("BR-DE-24-a", Severity::Fatal, Source::ArtefactOnly, vec![BtId(81)], "Wenn BT-81 \"Payment means type code\" einen Schlüssel für Kartenzahlungen enthält (48, 54, 55), muss genau BG-18 \"PAYMENT CARD INFORMATION\" übermittelt werden."));
    v.push(make_rule("BR-DE-24-b", Severity::Fatal, Source::ArtefactOnly, vec![], "Wenn BT-81 einen Schlüssel für Kartenzahlungen enthält (48, 54, 55), dürfen BG-17 und BG-19 nicht übermittelt werden."));
    v.push(make_rule("BR-DE-25-a", Severity::Fatal, Source::ArtefactOnly, vec![BtId(81)], "Wenn BT-81 \"Payment means type code\" einen Schlüssel für Lastschriften enthält (59), muss genau BG-19 \"DIRECT DEBIT\" übermittelt werden."));
    v.push(make_rule("BR-DE-25-b", Severity::Fatal, Source::ArtefactOnly, vec![], "Wenn BT-81 einen Schlüssel für Lastschriften enthält (59), dürfen BG-17 und BG-18 nicht übermittelt werden."));
    v.push(make_rule("BR-DE-26", Severity::Fatal, Source::ArtefactOnly, vec![BtId(3), BtId(25)], "Wenn im Element \"Invoice type code\" (BT-3) der Code 384 (Corrected invoice) übergeben wird, soll PRECEDING INVOICE REFERENCE (BG-3) mindestens einmal übermittelt werden."));
    v.push(make_rule("BR-DE-27", Severity::Fatal, Source::ArtefactOnly, vec![BtId(42)], "In BT-42 sollen mindestens drei Ziffern enthalten sein."));
    assert(rule_keys(v@) =~~= xrechnung_1_keys());
    v
}

/// XRechnung's conditional rules, part 3 of 3.
pub open spec fn xrechnung_2_keys() -> Seq<RuleKey> {
    seq![
        (
            "BR-DE-28"@,
            Severity::Fatal,
            Source::ArtefactOnly,
            seq![BtId(43)],
            "In BT-43 soll genau ein @-Zeichen enthalten sein, welches nicht von einem Leerzeichen oder einem Punkt, aber von mindestens zwei Zeichen auf beiden Seiten flankiert wird. Ein Punkt sollte nicht am Anfang oder am Ende stehen."@,
        ),
        (
            "BR-DE-30"@,
            Severity::Fatal,
            Source::ArtefactOnly,
            seq![BtId(90)],
            "Wenn \"DIRECT DEBIT\" (BG-19) vorhanden ist, dann muss \"Bank assigned creditor identifier\" (BT-90) übermittelt werden."@,
        ),
        (
            "BR-DE-31"@,
            Severity::Fatal,
            Source::ArtefactOnly,
            seq![BtId(91)],
            "Wenn \"DIRECT DEBIT\" (BG-19) vorhanden ist, dann muss \"Debited account identifier\" (BT-91) übermittelt werden."@,
        ),
        (
            "EN-SEPA-01"@,
            Severity::Warning,
            Source::Crate,
            seq![BtId(90)],
            "\"Bank assigned creditor identifier\" (BT-90) should be a valid SEPA Creditor Identifier (EPC AT-02)."@,
        ),
    ]
}

fn xrechnung_2_rules() -> (v: Vec<Rule>)
    ensures
        rule_keys(v@) == xrechnung_2_keys(),
{
    let mut v: Vec<Rule> = Vec::new();
    v.push(make_rule("BR-DE-28", Severity::Fatal, Source::ArtefactOnly, vec![BtId(43)], "In BT-43 soll genau ein @-Zeichen enthalten sein, welches nicht von einem Leerzeichen oder einem Punkt, aber von mindestens zwei Zeichen auf beiden Seiten flankiert wird. Ein Punkt sollte nicht am Anfang oder am Ende stehen."));
    v.push(make_rule("BR-DE-30", Severity::Fatal, Source::ArtefactOnly, vec![BtId(90)], "Wenn \"DIRECT DEBIT\" (BG-19) vorhanden ist, dann muss \"Bank assigned creditor identifier\" (BT-90) übermittelt werden."));
    v.push(make_rule("BR-DE-31", Severity::Fatal, Source::ArtefactOnly, vec![BtId(91)], "Wenn \"DIRECT DEBIT\" (BG-19) vorhanden ist, dann muss \"Debited account identifier\" (BT-91) übermittelt werden."));
    v.push(make_rule("EN-SEPA-01", Severity::Warning, Source::Crate, vec![BtId(90)], "\"Bank assigned creditor identifier\" (BT-90) should be a valid SEPA Creditor Identifier (EPC AT-02)."));
    assert(rule_keys(v@) =~~= xrechnung_2_keys());
    v
}

/// XRechnung's conditional rules.
pub open spec fn xrechnung_keys() -> Seq<RuleKey> {
    xrechnung_0_keys() + xrechnung_1_keys() + xrechnung_2_keys()
}

/// XRechnung's conditional rules.
pub fn xrechnung_rules() -> (v: Vec<Rule>)
    ensures
        rule_keys(v@) == xrechnung_keys(),
{
    let mut v = xrechnung_0_rules();
    let mut more = xrechnung_1_rules();
    proof { lemma_rule_keys_append(v@, more@); }
    v.append(&mut more);
    let mut more = xrechnung_2_rules();
    proof { lemma_rule_keys_append(v@, more@); }
    v.append(&mut more);
    v
}

/// The Clean Vehicles Directive variant's rules and the Extension's mime rule, part 1 of 1.
pub open spec fn cvd_0_keys() -> Seq<RuleKey> {
    seq![
        (
            "BR-DE-CVD-01"@,
            Severity::Fatal,
            Source::ArtefactOnly,
            seq![BtId(12)],
            "Das Element \"Contract reference\" (BT-12) muss übermittelt werden."@,
        ),
        (
            "BR-DE-CVD-02"@,
            Severity::Fatal,
            Source::ArtefactOnly,
            seq![BtId(17)],
            "Das Element \"Tender or lot reference\" (BT-17) muss übermittelt werden."@,
        ),
        (
            "BR-DE-CVD-03"@,
            Severity::Fatal,
            Source::ArtefactOnly,
            seq![BtId(158), BtId(160)],
            "In einer Rechnung muss mindestens eine INVOICE LINE (BG-25) enthalten sein, in der der Scheme identifier von BT-158 'CVD' ist und BT-160 den Wert 'cva' hat."@,
        ),
        (
            "BR-DE-CVD-04"@,
            Severity::Fatal,
            Source::ArtefactOnly,
            seq![BtId(158)],
            "Ein \"Item classification identifier\" (BT-158) mit dem Scheme identifier 'CVD' muss einen Wert aus der Liste der Fahrzeugklassen enthalten."@,
        ),
        (
            "BR-DE-CVD-05"@,
            Severity::Fatal,
            Source::ArtefactOnly,
            seq![BtId(161)],
            "Wenn \"Item attribute name\" (BT-160) den Wert 'cva' hat, muss BT-161 einen der Werte 'clean', 'zero-emission' oder 'other' enthalten."@,
        ),
        (
            "BR-DE-CVD-06-a"@,
            Severity::Fatal,
            Source::ArtefactOnly,
            seq![BtId(158), BtId(160)],
            "Wenn der Scheme identifier von BT-158 den Wert 'CVD' hat, muss genau ein BT-160 mit dem Wert 'cva' in derselben Rechnungsposition angegeben sein."@,
        ),
        (
            "BR-DE-CVD-06-b"@,
            Severity::Fatal,
            Source::ArtefactOnly,
            seq![BtId(158), BtId(160)],
            "Wenn BT-160 mit dem Wert 'cva' angegeben ist, muss in derselben Rechnungsposition genau ein BT-158 mit dem Scheme identifier 'CVD' angegeben sein."@,
        ),
        (
            "BR-DEX-01"@,
            Severity::Fatal,
            Source::ArtefactOnly,
            seq![BtId(125)],
            "Das Element \"Attached Document\" (BT-125) benutzt einen nicht zulässigen MIME-Code. Im Falle einer Extension ist zusätzlich 'application/xml' zulässig."@,
        ),
    ]
}

fn cvd_0_rules() -> (v: Vec<Rule>)
    ensures
        rule_keys(v@) == cvd_0_keys(),
{
    let mut v: Vec<Rule> = Vec::new();
    v.push(make_rule("BR-DE-CVD-01", Severity::Fatal, Source::ArtefactOnly, vec![BtId(12)], "Das Element \"Contract reference\" (BT-12) muss übermittelt werden."));
    v.push(make_rule("BR-DE-CVD-02", Severity::Fatal, Source::ArtefactOnly, vec![BtId(17)], "Das Element \"Tender or lot reference\" (BT-17) muss übermittelt werden."));
    v.push(make_rule("BR-DE-CVD-03", Severity::Fatal, Source::ArtefactOnly, vec![BtId(158), BtId(160)], "In einer Rechnung muss mindestens eine INVOICE LINE (BG-25) enthalten sein, in der der Scheme identifier von BT-158 'CVD' ist und BT-160 den Wert 'cva' hat."));
    v.push(make_rule("BR-DE-CVD-04", Severity::Fatal, Source::ArtefactOnly, vec![BtId(158)], "Ein \"Item classification identifier\" (BT-158) mit dem Scheme identifier 'CVD' muss einen Wert aus der Liste der Fahrzeugklassen enthalten."));
    v.push(make_rule("BR-DE-CVD-05", Severity::Fatal, Source::ArtefactOnly, vec![BtId(161)], "Wenn \"Item attribute name\" (BT-160) den Wert 'cva' hat, muss BT-161 einen der Werte 'clean', 'zero-emission' oder 'other' enthalten."));
    v.push(make_rule("BR-DE-CVD-06-a", Severity::Fatal, Source::ArtefactOnly, vec![BtId(158), BtId(160)], "Wenn der Scheme identifier von BT-158 den Wert 'CVD' hat, muss genau ein BT-160 mit dem Wert 'cva' in derselben Rechnungsposition angegeben sein."));
    v.push(make_rule("BR-DE-CVD-06-b", Severity::Fatal, Source::ArtefactOnly, vec![BtId(158), BtId(160)], "Wenn BT-160 mit dem Wert 'cva' angegeben ist, muss in derselben Rechnungsposition genau ein BT-158 mit dem Scheme identifier 'CVD' angegeben sein."));
    v.push(make_rule("BR-DEX-01", Severity::Fatal, Source::ArtefactOnly, vec![BtId(125)], "Das Element \"Attached Document\" (BT-125) benutzt einen nicht zulässigen MIME-Code. Im Falle einer Extension ist zusätzlich 'application/xml' zulässig."));
    assert(rule_keys(v@) =~~= cvd_0_keys());
    v
}

/// The Clean Vehicles Directive variant's rules and the Extension's mime rule.
pub open spec fn cvd_keys() -> Seq<RuleKey> {
    cvd_0_keys()
}

/// The Clean Vehicles Directive variant's rules and the Extension's mime rule.
pub fn cvd_rules() -> (v: Vec<Rule>)
    ensures
        rule_keys(v@) == cvd_keys(),
{
    let mut v = cvd_0_rules();
    v
}

/// The id prefix of the `f`-th family, in the standard's order: `S`, `Z`,
/// `E`, `AE`, `IC`, `G`, `O`, then `AF` and `AG` (which EN 16931-1 spells
/// `IG` and `IP`).
pub open spec fn family_prefix(f: int) -> Seq<char> {
    if f == 0 {
        "BR-S"@
    } else if f == 1 {
        "BR-Z"@
    } else if f == 2 {
        "BR-E"@
    } else if f == 3 {
        "BR-AE"@
    } else if f == 4 {
        "BR-IC"@
    } else if f == 5 {
        "BR-G"@
    } else if f == 6 {
        "BR-O"@
    } else if f == 7 {
        "BR-AF"@
    } else {
        "BR-AG"@
    }
}

/// The two-digit label of row `j + 1`: `01` … `10`.
pub open spec fn row_label(j: int) -> Seq<char> {
    if j < 9 {
        seq!['0', crate::text::digit_char(j + 1)]
    } else {
        "10"@
    }
}

/// The id of family row `k`: the family's prefix and the row's label.
pub open spec fn family_id(k: int) -> Seq<char> {
    family_prefix(k / 10) + "-"@ + row_label(k % 10)
}

/// The family rows' keys: ten per family, fatal, in the standard and the
/// artefacts alike, each row's wording closed by its id in brackets.
pub open spec fn family_keys() -> Seq<RuleKey> {
    Seq::new(
        90,
        |k: int|
            (
                family_id(k),
                Severity::Fatal,
                Source::Both,
                Seq::<BtId>::empty(),
                row_text(k % 10) + family_id(k) + "]"@,
            ),
    )
}

fn prefix_of(f: usize) -> (p: &'static str)
    ensures
        p@ == family_prefix(f as int),
{
    if f == 0 {
        "BR-S"
    } else if f == 1 {
        "BR-Z"
    } else if f == 2 {
        "BR-E"
    } else if f == 3 {
        "BR-AE"
    } else if f == 4 {
        "BR-IC"
    } else if f == 5 {
        "BR-G"
    } else if f == 6 {
        "BR-O"
    } else if f == 7 {
        "BR-AF"
    } else {
        "BR-AG"
    }
}

/// The wording of row `j + 1`, up to the rule's id.
pub open spec fn row_text(j: int) -> Seq<char> {
    if j == 0 {
        "An Invoice that contains an Invoice line (BG-25), a Document level allowance (BG-20) or a Document level charge (BG-21) with this VAT category shall contain the required number of VAT breakdown (BG-23) groups for it. ["@
    } else if j == 1 {
        "An Invoice that contains an Invoice line (BG-25) in this VAT category shall contain the tax identifiers the category requires. ["@
    } else if j == 2 {
        "An Invoice that contains a Document level allowance (BG-20) in this VAT category shall contain the tax identifiers the category requires. ["@
    } else if j == 3 {
        "An Invoice that contains a Document level charge (BG-21) in this VAT category shall contain the tax identifiers the category requires. ["@
    } else if j == 4 {
        "In an Invoice line (BG-25) in this VAT category the Invoiced item VAT rate (BT-152) shall satisfy the category's rate rule. ["@
    } else if j == 5 {
        "In a Document level allowance (BG-20) in this VAT category the VAT rate (BT-96) shall satisfy the category's rate rule. ["@
    } else if j == 6 {
        "In a Document level charge (BG-21) in this VAT category the VAT rate (BT-103) shall satisfy the category's rate rule. ["@
    } else if j == 7 {
        "The VAT category taxable amount (BT-116) shall equal the sum of Invoice line net amounts (BT-131) plus document level charges (BT-99) minus document level allowances (BT-92) in this VAT category. ["@
    } else if j == 8 {
        "The VAT category tax amount (BT-117) in a VAT breakdown (BG-23) with this VAT category shall satisfy the category's tax rule. ["@
    } else {
        "A VAT breakdown (BG-23) with this VAT category shall have, or shall not have, a VAT exemption reason code (BT-121) or text (BT-120) as the category requires. ["@
    }
}

fn row_template(j: usize) -> (t: &'static str)
    ensures
        t@ == row_text(j as int),
{
    if j == 0 {
        "An Invoice that contains an Invoice line (BG-25), a Document level allowance (BG-20) or a Document level charge (BG-21) with this VAT category shall contain the required number of VAT breakdown (BG-23) groups for it. ["
    } else if j == 1 {
        "An Invoice that contains an Invoice line (BG-25) in this VAT category shall contain the tax identifiers the category requires. ["
    } else if j == 2 {
        "An Invoice that contains a Document level allowance (BG-20) in this VAT category shall contain the tax identifiers the category requires. ["
    } else if j == 3 {
        "An Invoice that contains a Document level charge (BG-21) in this VAT category shall contain the tax identifiers the category requires. ["
    } else if j == 4 {
        "In an Invoice line (BG-25) in this VAT category the Invoiced item VAT rate (BT-152) shall satisfy the category's rate rule. ["
    } else if j == 5 {
        "In a Document level allowance (BG-20) in this VAT category the VAT rate (BT-96) shall satisfy the category's rate rule. ["
    } else if j == 6 {
        "In a Document level charge (BG-21) in this VAT category the VAT rate (BT-103) shall satisfy the category's rate rule. ["
    } else if j == 7 {
        "The VAT category taxable amount (BT-116) shall equal the sum of Invoice line net amounts (BT-131) plus document level charges (BT-99) minus document level allowances (BT-92) in this VAT category. ["
    } else if j == 8 {
        "The VAT category tax amount (BT-117) in a VAT breakdown (BG-23) with this VAT category shall satisfy the category's tax rule. ["
    } else {
        "A VAT breakdown (BG-23) with this VAT category shall have, or shall not have, a VAT exemption reason code (BT-121) or text (BT-120) as the category requires. ["
    }
}

/// The ninety family rows.
pub fn family_rules() -> (v: Vec<Rule>)
    ensures
        rule_keys(v@) == family_keys(),
{
    let mut v: Vec<Rule> = Vec::new();
    let mut k: usize = 0;
    while k < 90
        invariant
            k <= 90,
            rule_keys(v@) == family_keys().subrange(0, k as int),
        decreases 90 - k,
    {
        let f = k / 10;
        let j = k % 10;
        let mut id: Vec<char> = Vec::new();
        push_str(&mut id, prefix_of(f));
        id.push('-');
        if j < 9 {
            id.push('0');
            id.push(((j + 1) as u8 + 48) as char);
        } else {
            id.push('1');
            id.push('0');
        }
        let id = string_of(&id);
        let mut text: Vec<char> = Vec::new();
        push_str(&mut text, row_template(j));
        push_str(&mut text, id.as_str());
        text.push(']');
        let text = string_of(&text);
        let r = make_rule(id.as_str(), Severity::Fatal, Source::Both, Vec::new(), text.as_str());
        proof {
            reveal_strlit("-");
            reveal_strlit("10");
            reveal_strlit("]");
            assert(crate::text::digit_char(j + 1) == ((j + 1) as u8 + 48) as char);
            assert(id@ =~= family_id(k as int));
            assert(text@ =~= row_text(k as int % 10) + family_id(k as int) + "]"@);
            assert(rule_key(r) =~~= family_keys()[k as int]);
        }
        let ghost before = v@;
        v.push(r);
        proof {
            assert(rule_keys(v@) =~= rule_keys(before).push(rule_key(r)));
            assert(family_keys().subrange(0, k + 1) =~= family_keys().subrange(0, k as int).push(
                family_keys()[k as int],
            ));
        }
        k = k + 1;
    }
    v
}

// ── Everything ────────────────────────────────────────────────────────────────

/// Every rule's key, in registry order: the core rules, the family rows,
/// the split-payment and `O` rules, XRechnung's, and the CVD variant's with
/// the Extension's mime rule.
pub open spec fn registry_keys() -> Seq<RuleKey> {
    general_keys() + family_keys() + category_extras_keys() + xrechnung_keys() + cvd_keys()
}

/// Every rule this library evaluates.
pub fn registry() -> (v: Vec<Rule>)
    ensures
        rule_keys(v@) == registry_keys(),
{
    let mut v = general_rules();
    let mut more = family_rules();
    proof { lemma_rule_keys_append(v@, more@); }
    v.append(&mut more);
    let mut more = category_extras_rules();
    proof { lemma_rule_keys_append(v@, more@); }
    v.append(&mut more);
    let mut more = xrechnung_rules();
    proof { lemma_rule_keys_append(v@, more@); }
    v.append(&mut more);
    let mut more = cvd_rules();
    proof { lemma_rule_keys_append(v@, more@); }
    v.append(&mut more);
    v
}

} // verus!
