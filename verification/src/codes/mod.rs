//! Code lists — EN 16931-1 §6.5.8 `Code. Type`.
//!
//! Small, closed, semantically load-bearing lists are enums ([`VatCategory`]);
//! large, open lists stay sorted string tables searched with [`contains`].

use vstd::prelude::*;

use crate::text::{chars_of, push_str, string_of};

pub mod guard;

verus! {

// ── Text order ────────────────────────────────────────────────────────────────

/// Byte-wise (equivalently, code-point-wise) lexicographic order, as `str`
/// compares.
pub open spec fn text_less(a: Seq<char>, b: Seq<char>) -> bool
    decreases a.len(),
{
    if a.len() == 0 {
        b.len() > 0
    } else if b.len() == 0 {
        false
    } else if a[0] != b[0] {
        (a[0] as u32) < (b[0] as u32)
    } else {
        text_less(a.drop_first(), b.drop_first())
    }
}

/// No text is less than itself.
pub proof fn lemma_text_less_irreflexive(a: Seq<char>)
    ensures
        !text_less(a, a),
    decreases a.len(),
{
    if a.len() > 0 {
        lemma_text_less_irreflexive(a.drop_first());
    }
}

/// The text order is transitive.
pub proof fn lemma_text_less_transitive(a: Seq<char>, b: Seq<char>, c: Seq<char>)
    requires
        text_less(a, b),
        text_less(b, c),
    ensures
        text_less(a, c),
    decreases a.len(),
{
    if a.len() > 0 && b.len() > 0 && c.len() > 0 {
        if a[0] == b[0] && b[0] == c[0] {
            lemma_text_less_transitive(a.drop_first(), b.drop_first(), c.drop_first());
        }
    }
}

/// Distinct texts are ordered one way or the other.
pub proof fn lemma_text_less_total(a: Seq<char>, b: Seq<char>)
    ensures
        a == b || text_less(a, b) || text_less(b, a),
    decreases a.len(),
{
    if a.len() > 0 && b.len() > 0 && a[0] == b[0] {
        lemma_text_less_total(a.drop_first(), b.drop_first());
        if a.drop_first() == b.drop_first() {
            assert(a =~= seq![a[0]] + a.drop_first());
            assert(b =~= seq![b[0]] + b.drop_first());
        }
    } else if a.len() == 0 && b.len() == 0 {
        assert(a =~= b);
    } else if a.len() > 0 && b.len() > 0 {
        vstd::utf8::char_u32_cast(a[0], a[0] as u32);
        vstd::utf8::char_u32_cast(b[0], b[0] as u32);
        assert((a[0] as u32) != (b[0] as u32));
    }
}

/// A common prefix does not change the order.
proof fn lemma_text_less_skip(a: Seq<char>, b: Seq<char>, i: int)
    requires
        0 <= i <= a.len(),
        i <= b.len(),
        a.subrange(0, i) == b.subrange(0, i),
    ensures
        text_less(a, b) == text_less(a.subrange(i, a.len() as int), b.subrange(i, b.len() as int)),
    decreases i,
{
    if i > 0 {
        assert(a[0] == a.subrange(0, i)[0]);
        assert(b[0] == b.subrange(0, i)[0]);
        let a1 = a.drop_first();
        let b1 = b.drop_first();
        assert(a1.subrange(0, i - 1) =~= a.subrange(0, i).drop_first());
        assert(b1.subrange(0, i - 1) =~= b.subrange(0, i).drop_first());
        lemma_text_less_skip(a1, b1, i - 1);
        assert(a1.subrange(i - 1, a1.len() as int) =~= a.subrange(i, a.len() as int));
        assert(b1.subrange(i - 1, b1.len() as int) =~= b.subrange(i, b.len() as int));
    } else {
        assert(a.subrange(0, a.len() as int) =~= a);
        assert(b.subrange(0, b.len() as int) =~= b);
    }
}

/// `-1`, `0` or `1` as `a` sorts before, equal to, or after `b`.
pub fn compare_text(a: &str, b: &str) -> (r: i8)
    ensures
        r == 0 <==> a@ == b@,
        r < 0 <==> text_less(a@, b@),
        r > 0 <==> text_less(b@, a@),
        -1 <= r <= 1,
{
    let x = chars_of(a);
    let y = chars_of(b);
    let mut i: usize = 0;
    while i < x.len() && i < y.len() && x[i] == y[i]
        invariant
            i <= x@.len(),
            i <= y@.len(),
            x@ == a@,
            y@ == b@,
            x@.subrange(0, i as int) == y@.subrange(0, i as int),
        decreases x.len() - i,
    {
        assert(x@.subrange(0, i + 1) =~= x@.subrange(0, i as int).push(x@[i as int]));
        assert(y@.subrange(0, i + 1) =~= y@.subrange(0, i as int).push(y@[i as int]));
        i = i + 1;
    }
    proof {
        lemma_text_less_skip(x@, y@, i as int);
        lemma_text_less_skip(y@, x@, i as int);
        lemma_text_less_irreflexive(x@);
        lemma_text_less_total(x@, y@);
    }
    let r: i8 = if i == x.len() && i == y.len() {
        proof {
            assert(x@ =~= x@.subrange(0, i as int));
            assert(y@ =~= y@.subrange(0, i as int));
        }
        0
    } else if i == x.len() {
        -1
    } else if i == y.len() {
        1
    } else if (x[i] as u32) < (y[i] as u32) {
        -1
    } else {
        1
    };
    proof {
        if r != 0 {
            if a@ == b@ {
                lemma_text_less_irreflexive(a@);
            }
            if text_less(a@, b@) && text_less(b@, a@) {
                lemma_text_less_transitive(a@, b@, a@);
                lemma_text_less_irreflexive(a@);
            }
        }
    }
    r
}

/// `list` is strictly ascending in the text order.
pub open spec fn sorted_texts(list: Seq<&str>) -> bool {
    forall|i: int, j: int| 0 <= i < j < list.len() ==> text_less(list[i]@, list[j]@)
}

/// Whether `list` holds a text equal to `code`.
pub open spec fn lists_text(list: Seq<&str>, code: Seq<char>) -> bool {
    exists|i: int| 0 <= i < list.len() && list[i]@ == code
}

/// Whether `code` appears in a sorted code list — a binary search.
///
/// Codes are case-sensitive and compared exactly: `"kwh"` is not `"KWH"`.
pub fn contains(list: &[&str], code: &str) -> (b: bool)
    requires
        sorted_texts(list@),
    ensures
        b == lists_text(list@, code@),
{
    let mut lo: usize = 0;
    let mut hi: usize = list.len();
    while lo < hi
        invariant
            lo <= hi <= list@.len(),
            sorted_texts(list@),
            forall|i: int| 0 <= i < lo ==> text_less(#[trigger] list@[i]@, code@),
            forall|i: int| hi <= i < list@.len() ==> text_less(code@, #[trigger] list@[i]@),
        decreases hi - lo,
    {
        let mid = lo + (hi - lo) / 2;
        let c = compare_text(list[mid], code);
        if c == 0 {
            return true;
        } else if c < 0 {
            assert forall|i: int| 0 <= i < mid + 1 implies text_less(
                #[trigger] list@[i]@,
                code@,
            ) by {
                if i < mid {
                    lemma_text_less_transitive(list@[i]@, list@[mid as int]@, code@);
                }
            }
            lo = mid + 1;
        } else {
            assert forall|i: int| mid <= i < list@.len() implies text_less(
                code@,
                #[trigger] list@[i]@,
            ) by {
                if i > mid {
                    lemma_text_less_transitive(code@, list@[mid as int]@, list@[i]@);
                }
            }
            hi = mid;
        }
    }
    assert forall|i: int| 0 <= i < list@.len() implies list@[i]@ != code@ by {
        lemma_text_less_irreflexive(code@);
    }
    false
}

// ── The two lists this crate can state in full ───────────────────────────────

/// The texts of a list of strings.
pub open spec fn texts(list: Seq<&str>) -> Seq<Seq<char>> {
    list.map_values(|s: &str| s@)
}

/// The ten VAT category codes of UNCL 5305, sorted.
pub open spec fn vat_category_values() -> Seq<&'static str> {
    seq!["AE", "B", "E", "G", "K", "L", "M", "O", "S", "Z"]
}

/// The three VAT point date codes EN 16931 admits, sorted.
pub open spec fn vat_point_date_values() -> Seq<&'static str> {
    seq!["3", "35", "432"]
}

/// UNCL 5305 as `BR-CL-17` admits it — the ten VAT category codes, sorted.
pub fn vat_category_codes() -> (r: Vec<&'static str>)
    ensures
        r@ == vat_category_values(),
        texts(r@) == seq![
            seq!['A', 'E'],
            seq!['B'],
            seq!['E'],
            seq!['G'],
            seq!['K'],
            seq!['L'],
            seq!['M'],
            seq!['O'],
            seq!['S'],
            seq!['Z'],
        ],
        sorted_texts(r@),
{
    proof {
        reveal_strlit("AE");
        reveal_strlit("B");
        reveal_strlit("E");
        reveal_strlit("G");
        reveal_strlit("K");
        reveal_strlit("L");
        reveal_strlit("M");
        reveal_strlit("O");
        reveal_strlit("S");
        reveal_strlit("Z");
    }
    let r: Vec<&'static str> = vec!["AE", "B", "E", "G", "K", "L", "M", "O", "S", "Z"];
    assert(r@[0]@ == seq!['A', 'E'] && r@[1]@ == seq!['B'] && r@[2]@ == seq!['E']);
    assert(r@[3]@ == seq!['G'] && r@[4]@ == seq!['K'] && r@[5]@ == seq!['L']);
    assert(r@[6]@ == seq!['M'] && r@[7]@ == seq!['O'] && r@[8]@ == seq!['S']);
    assert(r@[9]@ == seq!['Z']);
    assert(texts(r@) =~= seq![
        seq!['A', 'E'],
        seq!['B'],
        seq!['E'],
        seq!['G'],
        seq!['K'],
        seq!['L'],
        seq!['M'],
        seq!['O'],
        seq!['S'],
        seq!['Z'],
    ]);
    assert forall|i: int, j: int| 0 <= i < j < r@.len() implies text_less(r@[i]@, r@[j]@) by {
        assert(r@[i]@ == texts(r@)[i]);
        assert(r@[j]@ == texts(r@)[j]);
    }
    r
}

/// UNTDID 2005 as EN 16931 admits it for BT-8 — the three VAT point date codes.
pub fn vat_point_date_codes() -> (r: Vec<&'static str>)
    ensures
        r@ == vat_point_date_values(),
        texts(r@) == seq![seq!['3'], seq!['3', '5'], seq!['4', '3', '2']],
        sorted_texts(r@),
{
    proof {
        reveal_strlit("3");
        reveal_strlit("35");
        reveal_strlit("432");
    }
    let r: Vec<&'static str> = vec!["3", "35", "432"];
    assert(r@[0]@ == seq!['3'] && r@[1]@ == seq!['3', '5'] && r@[2]@ == seq!['4', '3', '2']);
    assert(texts(r@) =~= seq![seq!['3'], seq!['3', '5'], seq!['4', '3', '2']]);
    assert forall|i: int, j: int| 0 <= i < j < r@.len() implies text_less(r@[i]@, r@[j]@) by {
        assert(r@[i]@ == texts(r@)[i]);
        assert(r@[j]@ == texts(r@)[j]);
        if i == 0 && j == 1 {
            assert(r@[j]@.drop_first() =~= seq!['5']);
            assert(text_less(r@[i]@.drop_first(), r@[j]@.drop_first()));
        }
    }
    r
}

// ── VAT category ──────────────────────────────────────────────────────────────

/// EN 16931 **BT-118 / BT-151 / BT-95 / BT-102** — the UNCL 5305 VAT category.
///
/// Ten codes, fixed by `BR-CL-17` and `BR-CL-18`.
#[derive(Debug, Clone, Copy, PartialEq, Eq, PartialOrd, Ord, Hash, Structural)]
pub enum VatCategory {
    /// `S` — standard rate.
    Standard,
    /// `Z` — zero-rated goods. Taxable at 0 %; input tax remains deductible.
    ZeroRated,
    /// `E` — exempt from VAT. Needs a reason.
    Exempt,
    /// `AE` — VAT reverse charge: the recipient accounts for the tax.
    ReverseCharge,
    /// `K` — VAT-exempt intra-Community supply of goods.
    IntraCommunity,
    /// `G` — free export item, VAT not charged.
    Export,
    /// `O` — services outside the scope of VAT. Exclusive: BR-O-11..14.
    OutOfScope,
    /// `L` — Canary Islands general indirect tax (IGIC).
    CanaryIslands,
    /// `M` — tax for production, services and importation in Ceuta and Melilla (IPSI).
    CeutaMelilla,
    /// `B` — split payment (Italy). Taxed; the buyer remits.
    SplitPayment,
}

/// The UNCL 5305 code of a category.
pub open spec fn category_code(c: VatCategory) -> Seq<char> {
    match c {
        VatCategory::Standard => seq!['S'],
        VatCategory::ZeroRated => seq!['Z'],
        VatCategory::Exempt => seq!['E'],
        VatCategory::ReverseCharge => seq!['A', 'E'],
        VatCategory::IntraCommunity => seq!['K'],
        VatCategory::Export => seq!['G'],
        VatCategory::OutOfScope => seq!['O'],
        VatCategory::CanaryIslands => seq!['L'],
        VatCategory::CeutaMelilla => seq!['M'],
        VatCategory::SplitPayment => seq!['B'],
    }
}

/// The category whose code is exactly `code`, if any.
pub open spec fn category_of_code(code: Seq<char>) -> Option<VatCategory> {
    if code == seq!['S'] {
        Some(VatCategory::Standard)
    } else if code == seq!['Z'] {
        Some(VatCategory::ZeroRated)
    } else if code == seq!['E'] {
        Some(VatCategory::Exempt)
    } else if code == seq!['A', 'E'] {
        Some(VatCategory::ReverseCharge)
    } else if code == seq!['K'] {
        Some(VatCategory::IntraCommunity)
    } else if code == seq!['G'] {
        Some(VatCategory::Export)
    } else if code == seq!['O'] {
        Some(VatCategory::OutOfScope)
    } else if code == seq!['L'] {
        Some(VatCategory::CanaryIslands)
    } else if code == seq!['M'] {
        Some(VatCategory::CeutaMelilla)
    } else if code == seq!['B'] {
        Some(VatCategory::SplitPayment)
    } else {
        None
    }
}

/// `S`, `L`, `M` and `B` levy tax.
pub open spec fn category_carries_tax(c: VatCategory) -> bool {
    matches!(c, VatCategory::Standard | VatCategory::CanaryIslands | VatCategory::CeutaMelilla | VatCategory::SplitPayment)
}

/// `E`, `AE`, `K`, `G` and `O` must state an exemption reason.
pub open spec fn category_requires_reason(c: VatCategory) -> bool {
    matches!(c, VatCategory::Exempt | VatCategory::ReverseCharge | VatCategory::IntraCommunity | VatCategory::Export | VatCategory::OutOfScope)
}

/// `S`, `Z`, `L` and `M` must not state an exemption reason.
pub open spec fn category_forbids_reason(c: VatCategory) -> bool {
    matches!(c, VatCategory::Standard | VatCategory::ZeroRated | VatCategory::CanaryIslands | VatCategory::CeutaMelilla)
}

/// Every category but `O` states a rate on a line, allowance or charge.
pub open spec fn category_states_rate(c: VatCategory) -> bool {
    c != VatCategory::OutOfScope
}

/// Only `O` excludes every other category from the document.
pub open spec fn category_is_exclusive(c: VatCategory) -> bool {
    c == VatCategory::OutOfScope
}

impl VatCategory {
    /// All ten codes, in the order `BR-CL-17` lists them.
    pub fn all() -> (v: Vec<VatCategory>)
        ensures
            v@ == seq![
                VatCategory::ReverseCharge,
                VatCategory::CanaryIslands,
                VatCategory::CeutaMelilla,
                VatCategory::Exempt,
                VatCategory::Standard,
                VatCategory::ZeroRated,
                VatCategory::Export,
                VatCategory::OutOfScope,
                VatCategory::IntraCommunity,
                VatCategory::SplitPayment,
            ],
    {
        vec![
            VatCategory::ReverseCharge,
            VatCategory::CanaryIslands,
            VatCategory::CeutaMelilla,
            VatCategory::Exempt,
            VatCategory::Standard,
            VatCategory::ZeroRated,
            VatCategory::Export,
            VatCategory::OutOfScope,
            VatCategory::IntraCommunity,
            VatCategory::SplitPayment,
        ]
    }

    /// The UNCL 5305 code as written in an invoice.
    pub fn code(self) -> (r: &'static str)
        ensures
            r@ == category_code(self),
    {
        proof {
            reveal_strlit("S");
            reveal_strlit("Z");
            reveal_strlit("E");
            reveal_strlit("AE");
            reveal_strlit("K");
            reveal_strlit("G");
            reveal_strlit("O");
            reveal_strlit("L");
            reveal_strlit("M");
            reveal_strlit("B");
        }
        match self {
            VatCategory::Standard => "S",
            VatCategory::ZeroRated => "Z",
            VatCategory::Exempt => "E",
            VatCategory::ReverseCharge => "AE",
            VatCategory::IntraCommunity => "K",
            VatCategory::Export => "G",
            VatCategory::OutOfScope => "O",
            VatCategory::CanaryIslands => "L",
            VatCategory::CeutaMelilla => "M",
            VatCategory::SplitPayment => "B",
        }
    }

    /// Parse a UNCL 5305 code — case-sensitive, exact.
    pub fn from_code(code: &str) -> (r: Option<VatCategory>)
        ensures
            r == category_of_code(code@),
    {
        let v = chars_of(code);
        if v.len() == 1 {
            let c = v[0];
            proof {
                assert(code@ =~= seq![c]);
            }
            if c == 'S' {
                Some(VatCategory::Standard)
            } else if c == 'Z' {
                Some(VatCategory::ZeroRated)
            } else if c == 'E' {
                Some(VatCategory::Exempt)
            } else if c == 'K' {
                Some(VatCategory::IntraCommunity)
            } else if c == 'G' {
                Some(VatCategory::Export)
            } else if c == 'O' {
                Some(VatCategory::OutOfScope)
            } else if c == 'L' {
                Some(VatCategory::CanaryIslands)
            } else if c == 'M' {
                Some(VatCategory::CeutaMelilla)
            } else if c == 'B' {
                Some(VatCategory::SplitPayment)
            } else {
                None
            }
        } else if v.len() == 2 && v[0] == 'A' && v[1] == 'E' {
            proof {
                assert(code@ =~= seq!['A', 'E']);
            }
            Some(VatCategory::ReverseCharge)
        } else {
            proof {
                if v.len() == 2 {
                    assert(code@ != seq!['A', 'E']);
                }
            }
            None
        }
    }

    /// Whether this category actually levies tax.
    pub fn carries_tax(self) -> (b: bool)
        ensures
            b == category_carries_tax(self),
    {
        matches!(self, VatCategory::Standard | VatCategory::CanaryIslands | VatCategory::CeutaMelilla | VatCategory::SplitPayment)
    }

    /// Whether a VAT breakdown in this category **must** state BT-120 or BT-121.
    pub fn requires_exemption_reason(self) -> (b: bool)
        ensures
            b == category_requires_reason(self),
    {
        matches!(self, VatCategory::Exempt | VatCategory::ReverseCharge | VatCategory::IntraCommunity | VatCategory::Export | VatCategory::OutOfScope)
    }

    /// Whether a VAT breakdown in this category **must not** state BT-120 or BT-121.
    pub fn forbids_exemption_reason(self) -> (b: bool)
        ensures
            b == category_forbids_reason(self),
    {
        matches!(self, VatCategory::Standard | VatCategory::ZeroRated | VatCategory::CanaryIslands | VatCategory::CeutaMelilla)
    }

    /// Whether a **line, allowance or charge** in this category states a VAT
    /// rate. Only `O` does not — and this is about BT-152, not BT-119.
    pub fn states_rate(self) -> (b: bool)
        ensures
            b == category_states_rate(self),
    {
        !matches!(self, VatCategory::OutOfScope)
    }

    /// Whether this category excludes every other one from the document.
    pub fn is_exclusive(self) -> (b: bool)
        ensures
            b == category_is_exclusive(self),
    {
        matches!(self, VatCategory::OutOfScope)
    }
}

/// The category's name, as EN 16931 and UNCL 5305 write it.
pub open spec fn category_name(c: VatCategory) -> Seq<char> {
    match c {
        VatCategory::Standard => "standard rate"@,
        VatCategory::ZeroRated => "zero rated goods"@,
        VatCategory::Exempt => "exempt from VAT"@,
        VatCategory::ReverseCharge => "VAT reverse charge"@,
        VatCategory::IntraCommunity => "VAT-exempt intra-Community supply"@,
        VatCategory::Export => "free export item, VAT not charged"@,
        VatCategory::OutOfScope => "services outside the scope of VAT"@,
        VatCategory::CanaryIslands => "Canary Islands general indirect tax (IGIC)"@,
        VatCategory::CeutaMelilla => "tax for Ceuta and Melilla (IPSI)"@,
        VatCategory::SplitPayment => "split payment"@,
    }
}

impl VatCategory {
    /// The category's name, as EN 16931 and UNCL 5305 write it.
    ///
    /// `O` is *not* "other": it is services outside the scope of VAT.
    pub fn name(self) -> (r: &'static str)
        ensures
            r@ == category_name(self),
    {
        match self {
            VatCategory::Standard => "standard rate",
            VatCategory::ZeroRated => "zero rated goods",
            VatCategory::Exempt => "exempt from VAT",
            VatCategory::ReverseCharge => "VAT reverse charge",
            VatCategory::IntraCommunity => "VAT-exempt intra-Community supply",
            VatCategory::Export => "free export item, VAT not charged",
            VatCategory::OutOfScope => "services outside the scope of VAT",
            VatCategory::CanaryIslands => "Canary Islands general indirect tax (IGIC)",
            VatCategory::CeutaMelilla => "tax for Ceuta and Melilla (IPSI)",
            VatCategory::SplitPayment => "split payment",
        }
    }
}

// ── Which categories can share a document ─────────────────────────────────────

/// Why a set of VAT categories cannot appear in one document.
///
/// Carries the rules that *would* report the conflict, so a caller can cite
/// them before any document exists.
#[derive(Debug, Clone, PartialEq, Eq)]
pub struct CategoryConflict {
    /// The exclusive category — `O` or `B`.
    pub category: VatCategory,
    /// The first category found that it cannot share a document with.
    pub conflicts_with: VatCategory,
    /// The rules that govern this exclusivity, in the artefacts' spelling.
    pub rules: Vec<&'static str>,
    /// What to do instead.
    pub hint: &'static str,
}

/// The rule family that makes `O` exclusive.
pub open spec fn out_of_scope_rules() -> Seq<Seq<char>> {
    seq!["BR-O-11"@, "BR-O-12"@, "BR-O-13"@, "BR-O-14"@]
}

/// What to do instead of mixing `O` with another category.
pub open spec fn out_of_scope_hint() -> Seq<char> {
    "\"Not subject to VAT\" is exclusive: an invoice carrying it may carry nothing else. Bill the out-of-scope items as their own document"@
}

/// The rule that keeps split payment away from the standard rate.
pub open spec fn split_payment_rules() -> Seq<Seq<char>> {
    seq!["BR-B-02"@]
}

/// What to do instead of mixing `B` with `S`.
pub open spec fn split_payment_hint() -> Seq<char> {
    "split payment and the standard rate cannot appear on one document; BR-B-01 also requires a split-payment invoice to be domestic Italian"@
}

/// Whether `s` holds an exclusive category and some other category beside it.
pub open spec fn mixes_exclusive(s: Seq<VatCategory>) -> bool {
    &&& exists|i: int| 0 <= i < s.len() && category_is_exclusive(#[trigger] s[i])
    &&& exists|j: int| 0 <= j < s.len() && !category_is_exclusive(#[trigger] s[j])
}

/// `k` is the first position of `s` whose category is not exclusive.
pub open spec fn first_non_exclusive_at(s: Seq<VatCategory>, k: int) -> bool {
    &&& 0 <= k < s.len()
    &&& !category_is_exclusive(s[k])
    &&& forall|m: int| 0 <= m < k ==> category_is_exclusive(#[trigger] s[m])
}

/// The verdict of [`VatCategory::can_share_document`] on `s`.
pub open spec fn share_verdict(s: Seq<VatCategory>, r: Result<(), CategoryConflict>) -> bool {
    if mixes_exclusive(s) {
        &&& r matches Err(e)
        &&& r->Err_0.category == VatCategory::OutOfScope
        &&& texts(r->Err_0.rules@) == out_of_scope_rules()
        &&& r->Err_0.hint@ == out_of_scope_hint()
        &&& exists|k: int| first_non_exclusive_at(s, k) && s[k] == r->Err_0.conflicts_with
    } else if s.contains(VatCategory::SplitPayment) && s.contains(VatCategory::Standard) {
        &&& r is Err
        &&& r->Err_0.category == VatCategory::SplitPayment
        &&& r->Err_0.conflicts_with == VatCategory::Standard
        &&& texts(r->Err_0.rules@) == split_payment_rules()
        &&& r->Err_0.hint@ == split_payment_hint()
    } else {
        r is Ok
    }
}

/// Whether `s` holds `c`.
fn holds(s: &[VatCategory], c: VatCategory) -> (b: bool)
    ensures
        b == s@.contains(c),
{
    let mut i: usize = 0;
    while i < s.len()
        invariant
            i <= s@.len(),
            forall|k: int| 0 <= k < i ==> s@[k] != c,
        decreases s.len() - i,
    {
        if s[i] == c {
            assert(s@[i as int] == c);
            return true;
        }
        i = i + 1;
    }
    false
}

impl VatCategory {
    /// **Can these categories share one document?** — answerable before the
    /// document exists.
    ///
    /// `O` excludes every other category (BR-O-11 … BR-O-14), and `B` excludes
    /// `S` (BR-B-02). An empty set, or one category on its own, is always fine.
    pub fn can_share_document(categories: &[VatCategory]) -> (r: Result<(), CategoryConflict>)
        ensures
            share_verdict(categories@, r),
    {
        let mut i: usize = 0;
        let mut found_exclusive = false;
        while i < categories.len()
            invariant_except_break
                i <= categories@.len(),
                !found_exclusive,
                forall|m: int| 0 <= m < i ==> !category_is_exclusive(#[trigger] categories@[m]),
            ensures
                found_exclusive ==> exists|m: int|
                    0 <= m < categories@.len() && category_is_exclusive(#[trigger] categories@[m]),
                !found_exclusive ==> forall|m: int|
                    0 <= m < categories@.len() ==> !category_is_exclusive(#[trigger] categories@[m]),
            decreases categories.len() - i,
        {
            if categories[i].is_exclusive() {
                found_exclusive = true;
                assert(category_is_exclusive(categories@[i as int]));
                break;
            }
            i = i + 1;
        }
        if found_exclusive {
            let mut k: usize = 0;
            while k < categories.len()
                invariant
                    k <= categories@.len(),
                    forall|m: int| 0 <= m < k ==> category_is_exclusive(#[trigger] categories@[m]),
                    exists|m: int| 0 <= m < categories@.len() && category_is_exclusive(#[trigger] categories@[m]),
                decreases categories.len() - k,
            {
                if !categories[k].is_exclusive() {
                    let e = CategoryConflict {
                        category: VatCategory::OutOfScope,
                        conflicts_with: categories[k],
                        rules: vec!["BR-O-11", "BR-O-12", "BR-O-13", "BR-O-14"],
                        hint: "\"Not subject to VAT\" is exclusive: an invoice carrying it may carry nothing else. Bill the out-of-scope items as their own document",
                    };
                    assert(texts(e.rules@) =~= out_of_scope_rules());
                    assert(first_non_exclusive_at(categories@, k as int));
                    assert(category_is_exclusive(categories@[k as int]) == false);
                    return Err(e);
                }
                k = k + 1;
            }
        }
        if holds(categories, VatCategory::SplitPayment) && holds(categories, VatCategory::Standard) {
            let e = CategoryConflict {
                category: VatCategory::SplitPayment,
                conflicts_with: VatCategory::Standard,
                rules: vec!["BR-B-02"],
                hint: "split payment and the standard rate cannot appear on one document; BR-B-01 also requires a split-payment invoice to be domestic Italian",
            };
            assert(texts(e.rules@) =~= split_payment_rules());
            return Err(e);
        }
        Ok(())
    }
}

/// `parts` joined with `sep` between them, as `[&str]::join` does.
pub open spec fn joined(parts: Seq<Seq<char>>, sep: Seq<char>) -> Seq<char>
    decreases parts.len(),
{
    if parts.len() == 0 {
        Seq::empty()
    } else if parts.len() == 1 {
        parts[0]
    } else {
        joined(parts.drop_last(), sep) + sep + parts.last()
    }
}

/// Append `parts` joined by `sep` to `out`.
pub fn push_joined(out: &mut Vec<char>, parts: &Vec<&'static str>, sep: &str)
    ensures
        final(out)@ == old(out)@ + joined(texts(parts@), sep@),
{
    let ghost start = out@;
    let mut i: usize = 0;
    assert(texts(parts@.subrange(0, 0)) =~= Seq::<Seq<char>>::empty());
    assert(out@ =~= start + joined(texts(parts@.subrange(0, 0)), sep@));
    while i < parts.len()
        invariant
            i <= parts@.len(),
            out@ == start + joined(texts(parts@.subrange(0, i as int)), sep@),
        decreases parts.len() - i,
    {
        let ghost before = out@;
        if i > 0 {
            push_str(out, sep);
        }
        push_str(out, parts[i]);
        proof {
            let t = texts(parts@.subrange(0, i + 1));
            assert(t.drop_last() =~= texts(parts@.subrange(0, i as int)));
            assert(t.last() == parts@[i as int]@);
            if i == 0 {
                assert(t.len() == 1);
                assert(out@ =~= start + t[0]);
            } else {
                assert(out@ =~= start + (joined(t.drop_last(), sep@) + sep@ + t.last()));
            }
        }
        i = i + 1;
    }
    assert(parts@.subrange(0, parts@.len() as int) =~= parts@);
}

/// The sentence a [`CategoryConflict`] reads as.
pub open spec fn conflict_text(e: CategoryConflict) -> Seq<char> {
    "VAT categories "@ + category_code(e.category) + " and "@ + category_code(e.conflicts_with)
        + " cannot share one document ("@ + joined(texts(e.rules@), ", "@) + ") — "@ + e.hint@
}

impl CategoryConflict {
    /// "VAT categories O and S cannot share one document (BR-O-11, …) — hint".
    pub fn to_string(&self) -> (r: String)
        ensures
            r@ == conflict_text(*self),
    {
        let mut out: Vec<char> = Vec::new();
        push_str(&mut out, "VAT categories ");
        push_str(&mut out, self.category.code());
        push_str(&mut out, " and ");
        push_str(&mut out, self.conflicts_with.code());
        push_str(&mut out, " cannot share one document (");
        push_joined(&mut out, &self.rules, ", ");
        push_str(&mut out, ") — ");
        push_str(&mut out, self.hint);
        let r = string_of(&out);
        assert(r@ =~= conflict_text(*self));
        r
    }
}


/// **Which categories can share a document**: `O` beside any other category
/// is refused under BR-O-11 … BR-O-14; without `O`, split payment `B` beside
/// the standard rate `S` is refused citing BR-B-02, naming `B` and `S`; and a
/// set without `O` that does not hold both `B` and `S` — `B` beside `Z`, `E`,
/// `AE` or any other category but `S` — is accepted.
pub proof fn law_split_payment_excludes_the_standard_rate_and_nothing_else(
    s: Seq<VatCategory>,
    r: Result<(), CategoryConflict>,
)
    requires
        share_verdict(s, r),
    ensures
        (s.contains(VatCategory::OutOfScope) && exists|j: int|
            0 <= j < s.len() && s[j] != VatCategory::OutOfScope) ==> (r matches Err(e)
            && e.category == VatCategory::OutOfScope && e.conflicts_with != VatCategory::OutOfScope
            && s.contains(e.conflicts_with) && texts(e.rules@) == seq![
            seq!['B', 'R', '-', 'O', '-', '1', '1'],
            seq!['B', 'R', '-', 'O', '-', '1', '2'],
            seq!['B', 'R', '-', 'O', '-', '1', '3'],
            seq!['B', 'R', '-', 'O', '-', '1', '4'],
        ]),
        !s.contains(VatCategory::OutOfScope) && s.contains(VatCategory::SplitPayment) && s.contains(
            VatCategory::Standard,
        ) ==> (r matches Err(e) && e.category == VatCategory::SplitPayment && e.conflicts_with
            == VatCategory::Standard && texts(e.rules@) == seq![
            seq!['B', 'R', '-', 'B', '-', '0', '2'],
        ]),
        !s.contains(VatCategory::OutOfScope) && !(s.contains(VatCategory::SplitPayment)
            && s.contains(VatCategory::Standard)) ==> r is Ok,
{
    reveal_strlit("BR-O-11");
    reveal_strlit("BR-O-12");
    reveal_strlit("BR-O-13");
    reveal_strlit("BR-O-14");
    reveal_strlit("BR-B-02");
    assert("BR-O-11"@ =~= seq!['B', 'R', '-', 'O', '-', '1', '1']);
    assert("BR-O-12"@ =~= seq!['B', 'R', '-', 'O', '-', '1', '2']);
    assert("BR-O-13"@ =~= seq!['B', 'R', '-', 'O', '-', '1', '3']);
    assert("BR-O-14"@ =~= seq!['B', 'R', '-', 'O', '-', '1', '4']);
    assert("BR-B-02"@ =~= seq!['B', 'R', '-', 'B', '-', '0', '2']);
    assert(out_of_scope_rules() =~= seq![
        seq!['B', 'R', '-', 'O', '-', '1', '1'],
        seq!['B', 'R', '-', 'O', '-', '1', '2'],
        seq!['B', 'R', '-', 'O', '-', '1', '3'],
        seq!['B', 'R', '-', 'O', '-', '1', '4'],
    ]);
    assert(split_payment_rules() =~= seq![seq!['B', 'R', '-', 'B', '-', '0', '2']]);
    if s.contains(VatCategory::OutOfScope) && exists|j: int|
        0 <= j < s.len() && s[j] != VatCategory::OutOfScope {
        let i = choose|i: int| 0 <= i < s.len() && s[i] == VatCategory::OutOfScope;
        let j = choose|j: int| 0 <= j < s.len() && s[j] != VatCategory::OutOfScope;
        assert(category_is_exclusive(s[i]));
        assert(!category_is_exclusive(s[j]));
        assert(mixes_exclusive(s));
        let k = choose|k: int| first_non_exclusive_at(s, k) && s[k] == r->Err_0.conflicts_with;
        assert(s.contains(s[k]));
    }
    if !s.contains(VatCategory::OutOfScope) {
        if mixes_exclusive(s) {
            let i = choose|i: int| 0 <= i < s.len() && category_is_exclusive(#[trigger] s[i]);
            assert(s.contains(s[i]));
        }
    }
}

} // verus!
