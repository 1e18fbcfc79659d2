//! The document entity: an immutable-per-version record of generic content
//! with identity, timestamps and a version counter.

use vstd::prelude::*;
use crate::text::dec_digits;
use crate::text::push_decimal;

verus! {

/// A versioned record. An update never mutates a value in place: it yields a
/// new value with the same identity and creation time, the new content, the
/// new modification time, and the version advanced by one.
#[derive(Debug, PartialEq)]
pub struct Document<T> {
    pub id: usize,
    pub content: T,
    pub created_at: u64,
    pub modified_at: Option<u64>,
    pub version: u32,
}

/// The textual rendering of the modification time: `None` while the document
/// was never updated, `Some(<time>)` afterwards.
pub open spec fn spec_render_modified(modified_at: Option<u64>) -> Seq<char> {
    match modified_at {
        Option::None => "None"@,
        Option::Some(t) => "Some("@ + dec_digits(t as nat) + ")"@,
    }
}

impl<T> Document<T> {
    /// The value that `update` yields: same identity and creation time, the
    /// given content, the modification time recorded, the version advanced.
    pub open spec fn spec_update(self, content: T, modified_at: u64) -> Document<T> {
        Document {
            id: self.id,
            content: content,
            created_at: self.created_at,
            modified_at: Option::Some(modified_at),
            version: (self.version + 1) as u32,
        }
    }

    /// The modification time is recorded exactly once the document was
    /// updated: absent if and only if the version is zero.
    pub open spec fn well_formed(self) -> bool {
        self.modified_at is None <==> self.version == 0
    }

    /// Constructs a fresh document: version zero, no modification time.
    pub fn new(id: usize, content: T, created_at: u64) -> (r: Document<T>)
        ensures
            r.id == id,
            r.content == content,
            r.created_at == created_at,
            r.modified_at is None,
            r.version == 0,
            r.well_formed(),
    {
        Document { id, content, created_at, modified_at: Option::None, version: 0 }
    }

    /// The deterministic textual rendering of a document whose content
    /// renders as `content`: all five fields in order, with the modification
    /// time written as an optional value.
    pub open spec fn spec_render(self, content: Seq<char>) -> Seq<char> {
        "Document { id: "@ + dec_digits(self.id as nat) + ", content: "@ + content
            + ", created_at: "@ + dec_digits(self.created_at as nat) + ", modified_at: "@
            + spec_render_modified(self.modified_at) + ", version: "@ + dec_digits(
            self.version as nat,
        ) + " }"@
    }

    /// Renders the document as text. The content's own rendering is supplied
    /// by the caller as `content_text`.
    pub fn render(&self, content_text: &str) -> (r: String)
        ensures
            r@ == self.spec_render(content_text@),
    {
        let mut s = String::new();
        s.append("Document { id: ");
        push_decimal(&mut s, self.id as u64);
        s.append(", content: ");
        s.append(content_text);
        s.append(", created_at: ");
        push_decimal(&mut s, self.created_at);
        s.append(", modified_at: ");
        match self.modified_at {
            Option::None => s.append("None"),
            Option::Some(t) => {
                s.append("Some(");
                push_decimal(&mut s, t);
                s.append(")");
            },
        }
        s.append(", version: ");
        push_decimal(&mut s, self.version as u64);
        s.append(" }");
        proof {
            assert(s@ =~= self.spec_render(content_text@));
        }
        s
    }

    /// Yields the updated document without touching `self`: callers that want
    /// the update to stick must store the returned value.
    pub fn update(&self, content: T, modified_at: u64) -> (r: Document<T>)
        requires
            self.version < u32::MAX,
        ensures
            r == self.spec_update(content, modified_at),
            r.id == self.id,
            r.content == content,
            r.created_at == self.created_at,
            r.modified_at == Option::Some(modified_at),
            r.version == self.version + 1,
            r.well_formed(),
    {
        Document {
            id: self.id,
            content,
            created_at: self.created_at,
            modified_at: Option::Some(modified_at),
            version: self.version + 1,
        }
    }
}

} // verus!
