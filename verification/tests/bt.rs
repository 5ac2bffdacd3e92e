use en16931::bt::{BgId, BtId, Group, Path};

#[test]
fn renders_the_language_the_standard_speaks() {
    assert_eq!(Path::document().to_string(), "Invoice");
    assert_eq!(Path::term(BtId(1)).to_string(), "BT-1");
    assert_eq!(Path::group(Group::Totals).to_string(), "BG-22");
    assert_eq!(Path::group_term(Group::Totals, BtId(109)).to_string(), "BG-22/BT-109");
    assert_eq!(Path::at(Group::VatBreakdown, 0).to_string(), "BG-23[0]");
    assert_eq!(Path::at_term(Group::Line, 2, BtId(151)).to_string(), "BG-25[2]/BT-151");
}

#[test]
fn every_group_is_in_all() {
    let all = Group::all();
    for g in &all {
        match g {
            Group::Document
            | Group::Seller
            | Group::Buyer
            | Group::Payee
            | Group::TaxRepresentative
            | Group::Delivery
            | Group::Payment
            | Group::DocumentAllowance
            | Group::DocumentCharge
            | Group::Totals
            | Group::VatBreakdown
            | Group::Attachment
            | Group::Line => (),
        }
    }
    assert_eq!(all.len(), 13);
    let bgs: Vec<_> = all.iter().filter_map(|g| g.bg()).collect();
    assert!(bgs.windows(2).all(|w| w[0] < w[1]), "{bgs:?}");
}

#[test]
fn repeating_groups_are_exactly_the_ones_that_need_an_index() {
    let repeating = [
        Group::DocumentAllowance,
        Group::DocumentCharge,
        Group::VatBreakdown,
        Group::Attachment,
        Group::Line,
    ];
    for g in Group::all() {
        assert_eq!(g.repeats(), repeating.contains(&g), "{g:?}");
    }
}

#[test]
fn group_numbers_match_the_standard() {
    assert_eq!(Group::Seller.bg(), Some(BgId(4)));
    assert_eq!(Group::Buyer.bg(), Some(BgId(7)));
    assert_eq!(Group::VatBreakdown.bg(), Some(BgId(23)));
    assert_eq!(Group::Line.bg(), Some(BgId(25)));
    assert_eq!(Group::Document.bg(), None);
}

#[test]
fn paths_sort_stably_for_diffable_reports() {
    let mut v = [
        Path::at_term(Group::Line, 2, BtId(151)),
        Path::at_term(Group::Line, 0, BtId(151)),
        Path::term(BtId(1)),
    ];
    v.sort();
    assert_eq!(v[0], Path::term(BtId(1)));
    assert_eq!(v[1], Path::at_term(Group::Line, 0, BtId(151)));
}

#[test]
fn term_and_group_ids_render_with_their_prefix() {
    assert_eq!(BtId(151).to_string(), "BT-151");
    assert_eq!(BgId(25).to_string(), "BG-25");
}
