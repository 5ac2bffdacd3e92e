//! [`Attachment`] — EN 16931 §6.5.11 `Binary Object. Type`.
//!
//! Table 25 gives three components, and **all three are mandatory**: content,
//! mime code and filename. The constructor refuses a blank mime code or
//! filename, which nothing else at the model level would catch.

use vstd::prelude::*;

use crate::codes::texts;
use crate::identifier::owned;
use crate::text::{blank, is_blank_str, push_decimal, push_str, decimal_digits, string_of, str_eq};

verus! {

/// A file transmitted with the invoice — EN 16931-1 §6.5.11.
#[derive(Debug, PartialEq, Eq, Hash)]
pub struct Attachment {
    content: Vec<u8>,
    mime_code: String,
    filename: String,
}

/// Why an [`Attachment`] could not be constructed.
#[derive(Debug, Clone, Copy, PartialEq, Eq, Structural)]
pub enum AttachmentError {
    /// BT-125-1 is missing. §6.5.11 Table 25 makes it mandatory.
    MissingMimeCode,
    /// BT-125-2 is missing. §6.5.11 Table 25 makes it mandatory.
    MissingFilename,
}

impl AttachmentError {
    /// The message, as the error reads.
    pub fn to_string(&self) -> (r: &'static str)
        ensures
            r@ == match self {
                AttachmentError::MissingMimeCode => "attachment mime code is required (EN 16931-1 §6.5.11)"@,
                AttachmentError::MissingFilename => "attachment filename is required (EN 16931-1 §6.5.11)"@,
            },
    {
        match self {
            AttachmentError::MissingMimeCode => "attachment mime code is required (EN 16931-1 §6.5.11)",
            AttachmentError::MissingFilename => "attachment filename is required (EN 16931-1 §6.5.11)",
        }
    }
}

/// The mime types §6.5.11 obliges every compliant receiver to accept.
pub open spec fn receiver_must_accept() -> Seq<Seq<char>> {
    seq![
        "application/pdf"@,
        "image/png"@,
        "image/jpeg"@,
        "text/csv"@,
        "application/vnd.openxmlformats-officedocument.spreadsheetml.sheet"@,
        "application/vnd.oasis.opendocument.spreadsheet"@,
    ]
}

impl Clone for Attachment {
    /// An attachment with the same content, mime code and filename.
    fn clone(&self) -> (r: Attachment)
        ensures
            r@ == self@,
    {
        let content = self.content.clone();
        assert(content@ =~= self.content@);
        Attachment { content, mime_code: self.mime_code.clone(), filename: self.filename.clone() }
    }
}

impl View for Attachment {
    type V = (Seq<u8>, Seq<char>, Seq<char>);

    closed spec fn view(&self) -> (Seq<u8>, Seq<char>, Seq<char>) {
        (self.content@, self.mime_code@, self.filename@)
    }
}

/// `filename (mime, N bytes)`.
pub open spec fn attachment_text(v: (Seq<u8>, Seq<char>, Seq<char>)) -> Seq<char> {
    v.2 + " ("@ + v.1 + ", "@ + decimal_digits(v.0.len()) + " bytes)"@
}

impl Attachment {
    /// The mime types §6.5.11 obliges every compliant receiver to accept,
    /// verbatim and in order.
    pub fn receiver_must_accept() -> (v: Vec<&'static str>)
        ensures
            texts(v@) == receiver_must_accept(),
    {
        let v = vec![
            "application/pdf",
            "image/png",
            "image/jpeg",
            "text/csv",
            "application/vnd.openxmlformats-officedocument.spreadsheetml.sheet",
            "application/vnd.oasis.opendocument.spreadsheet",
        ];
        assert(texts(v@) =~= receiver_must_accept());
        v
    }

    /// Construct an attachment. All three components are required by §6.5.11.
    pub fn new(content: Vec<u8>, mime_code: &str, filename: &str) -> (r: Result<
        Attachment,
        AttachmentError,
    >)
        ensures
            blank(mime_code@) ==> r == Err::<Attachment, AttachmentError>(
                AttachmentError::MissingMimeCode,
            ),
            !blank(mime_code@) && blank(filename@) ==> r == Err::<Attachment, AttachmentError>(
                AttachmentError::MissingFilename,
            ),
            !blank(mime_code@) && !blank(filename@) ==> (r matches Ok(a) && a@ == (
                content@,
                mime_code@,
                filename@,
            )),
    {
        if is_blank_str(mime_code) {
            return Err(AttachmentError::MissingMimeCode);
        }
        if is_blank_str(filename) {
            return Err(AttachmentError::MissingFilename);
        }
        Ok(Attachment { content, mime_code: owned(mime_code), filename: owned(filename) })
    }

    /// The bytes.
    pub fn content(&self) -> (r: &[u8])
        ensures
            r@ == self@.0,
    {
        self.content.as_slice()
    }

    /// The mime code — BT-125 `@mimeCode`.
    pub fn mime_code(&self) -> (r: &str)
        ensures
            r@ == self@.1,
    {
        self.mime_code.as_str()
    }

    /// The filename — BT-125 `@filename`.
    pub fn filename(&self) -> (r: &str)
        ensures
            r@ == self@.2,
    {
        self.filename.as_str()
    }

    /// Whether every compliant receiver is obliged to accept this mime type.
    ///
    /// A `false` is not a validation failure — the standard does not restrict
    /// what may be *sent* — but delivery then rests on the counterparty.
    pub fn is_universally_accepted(&self) -> (b: bool)
        ensures
            b == receiver_must_accept().contains(self@.1),
    {
        let list = Attachment::receiver_must_accept();
        let mut i: usize = 0;
        while i < list.len()
            invariant
                i <= list@.len(),
                texts(list@) == receiver_must_accept(),
                forall|k: int| 0 <= k < i ==> list@[k]@ != self@.1,
            decreases list.len() - i,
        {
            assert(texts(list@)[i as int] == list@[i as int]@);
            if str_eq(list[i], self.mime_code.as_str()) {
                assert(receiver_must_accept()[i as int] == self@.1);
                return true;
            }
            i = i + 1;
        }
        assert forall|k: int| 0 <= k < receiver_must_accept().len() implies receiver_must_accept()[k]
            != self@.1 by {
            assert(texts(list@)[k] == list@[k]@);
        }
        false
    }

    /// `filename (mime, N bytes)` — a diagnostic rendering; the bytes are
    /// never printed.
    pub fn to_string(&self) -> (r: String)
        ensures
            r@ == attachment_text(self@),
    {
        let mut out: Vec<char> = Vec::new();
        push_str(&mut out, self.filename.as_str());
        push_str(&mut out, " (");
        push_str(&mut out, self.mime_code.as_str());
        push_str(&mut out, ", ");
        push_decimal(&mut out, self.content.len() as u64);
        push_str(&mut out, " bytes)");
        let r = string_of(&out);
        assert(r@ =~= attachment_text(self@));
        r
    }
}

} // verus!
