use en16931::attachment::{Attachment, AttachmentError};

#[test]
fn all_three_components_are_present() {
    let a = Attachment::new(vec![1, 2, 3], "application/pdf", "terms.pdf").expect("valid attachment");
    assert_eq!(a.content(), &[1, 2, 3]);
    assert_eq!(a.mime_code(), "application/pdf");
    assert_eq!(a.filename(), "terms.pdf");
    assert_eq!(a.to_string(), "terms.pdf (application/pdf, 3 bytes)");
}

#[test]
fn the_receiver_obligation_list_matches_the_standard() {
    assert_eq!(
        Attachment::receiver_must_accept(),
        vec![
            "application/pdf",
            "image/png",
            "image/jpeg",
            "text/csv",
            "application/vnd.openxmlformats-officedocument.spreadsheetml.sheet",
            "application/vnd.oasis.opendocument.spreadsheet",
        ]
    );
}

#[test]
fn an_exotic_type_is_lawful_but_not_guaranteed() {
    let csv = Attachment::new(vec![], "text/csv", "a.csv").expect("valid");
    assert!(csv.is_universally_accepted());
    let tiff = Attachment::new(vec![], "image/tiff", "a.tif").expect("valid");
    assert!(!tiff.is_universally_accepted());
}

#[test]
fn blank_components_are_refused_by_name() {
    assert!(matches!(Attachment::new(vec![], "", "a.pdf"), Err(AttachmentError::MissingMimeCode)));
    assert!(matches!(Attachment::new(vec![], "application/pdf", "  "), Err(AttachmentError::MissingFilename)));
}
