//! The identity record every module exports, and the capability a constructed
//! plugin object provides.

use vstd::prelude::*;

verus! {

/// Position of the first nul byte found in text that was supposed to be free
/// of them.
#[derive(Clone, Copy, Debug, PartialEq, Eq, Structural)]
pub struct NulError {
    pub position: usize,
}

/// A byte string terminated by exactly one nul byte, with no interior nul
/// bytes: the representation in which identity fields cross the module
/// boundary, readable independent of any one language's string type.
#[derive(Debug)]
pub struct CStrBytes {
    bytes: Vec<u8>,
}

impl View for CStrBytes {
    type V = Seq<u8>;

    closed spec fn view(&self) -> Seq<u8> {
        self.bytes@
    }
}

/// The first nul byte of `s` is at `pos`.
pub open spec fn first_nul_at(s: Seq<u8>, pos: int) -> bool {
    &&& 0 <= pos < s.len()
    &&& s[pos] == 0u8
    &&& forall|j: int| 0 <= j < pos ==> s[j] != 0u8
}

impl CStrBytes {
    /// Well-formed: non-empty, ends in a nul byte, and no byte before the
    /// terminator is nul.
    pub open spec fn wf(&self) -> bool {
        &&& self@.len() >= 1
        &&& self@.last() == 0u8
        &&& forall|i: int| 0 <= i < self@.len() - 1 ==> self@[i] != 0u8
    }

    /// The logical value exposed to callers: the source text, terminator
    /// excluded.
    pub open spec fn text(&self) -> Seq<u8> {
        self@.drop_last()
    }

    /// Validate and terminate: append exactly one nul byte, or report the
    /// position of an embedded nul byte rather than truncating.
    pub fn from_text(text: &Vec<u8>) -> (r: Result<CStrBytes, NulError>)
        ensures
            match r {
                Ok(c) => {
                    &&& !text@.contains(0u8)
                    &&& c.wf()
                    &&& c.text() == text@
                    &&& c@ == text@.push(0u8)
                },
                Err(e) => first_nul_at(text@, e.position as int),
            },
    {
        match crate::str_to_cstr::convert(text) {
            Ok(bytes) => {
                proof {
                    assert(bytes@.drop_last() =~= text@);
                }
                Ok(CStrBytes { bytes })
            },
            Err(e) => Err(e),
        }
    }

    /// The raw bytes, terminator included.
    pub fn as_bytes(&self) -> (r: &Vec<u8>)
        ensures
            r@ == self@,
    {
        &self.bytes
    }

    /// Length of the logical value (terminator excluded).
    pub fn text_len(&self) -> (r: usize)
        requires
            self.wf(),
        ensures
            r == self.text().len(),
    {
        self.bytes.len() - 1
    }

    /// The logical value exposed to callers, as an owned byte string: the
    /// source text with the terminator excluded.
    pub fn text_bytes(&self) -> (r: Vec<u8>)
        requires
            self.wf(),
        ensures
            r@ == self.text(),
    {
        let r = crate::discord::copy_range(&self.bytes, 0, self.bytes.len() - 1);
        proof {
            assert(r@ =~= self.text());
        }
        r
    }
}

/// Which identity field was being built when text validation failed.
#[derive(Clone, Copy, Debug, PartialEq, Eq, Structural)]
pub enum MetaField {
    Name,
    Authors,
    Version,
}

/// Text validation failed for one identity field.
#[derive(Clone, Copy, Debug, PartialEq, Eq, Structural)]
pub struct MetaError {
    pub field: MetaField,
    pub nul: NulError,
}

/// The fixed-layout identity record a module exports: name, authors and
/// version, in that order, each a nul-terminated byte string. Immutable once
/// built.
#[derive(Debug)]
pub struct Meta {
    pub name: CStrBytes,
    pub authors: CStrBytes,
    pub version: CStrBytes,
}

impl Meta {
    /// Every field carries exactly one nul byte, at its end.
    pub open spec fn wf(&self) -> bool {
        &&& self.name.wf()
        &&& self.authors.wf()
        &&& self.version.wf()
    }

    /// The record is byte-for-byte the given source text plus one terminator
    /// per field.
    pub open spec fn built_from(&self, name: Seq<u8>, authors: Seq<u8>, version: Seq<u8>) -> bool {
        &&& self.name.text() == name
        &&& self.authors.text() == authors
        &&& self.version.text() == version
    }

    /// Validating factory: succeeds if and only if no field's text embeds a
    /// nul byte; the first offending field (in declaration order) is reported
    /// otherwise.
    pub fn new(name: &Vec<u8>, authors: &Vec<u8>, version: &Vec<u8>) -> (r: Result<Meta, MetaError>)
        ensures
            match r {
                Ok(m) => {
                    &&& !name@.contains(0u8)
                    &&& !authors@.contains(0u8)
                    &&& !version@.contains(0u8)
                    &&& m.wf()
                    &&& m.built_from(name@, authors@, version@)
                },
                Err(e) => match e.field {
                    MetaField::Name => first_nul_at(name@, e.nul.position as int),
                    MetaField::Authors => {
                        &&& !name@.contains(0u8)
                        &&& first_nul_at(authors@, e.nul.position as int)
                    },
                    MetaField::Version => {
                        &&& !name@.contains(0u8)
                        &&& !authors@.contains(0u8)
                        &&& first_nul_at(version@, e.nul.position as int)
                    },
                },
            },
    {
        let name = match CStrBytes::from_text(name) {
            Ok(c) => c,
            Err(nul) => {
                return Err(MetaError { field: MetaField::Name, nul });
            },
        };
        let authors = match CStrBytes::from_text(authors) {
            Ok(c) => c,
            Err(nul) => {
                return Err(MetaError { field: MetaField::Authors, nul });
            },
        };
        let version = match CStrBytes::from_text(version) {
            Ok(c) => c,
            Err(nul) => {
                return Err(MetaError { field: MetaField::Version, nul });
            },
        };
        Ok(Meta { name, authors, version })
    }
}

/// Recovering the identity: a well-formed field built from given source
/// text carries exactly that text plus one trailing nul byte, and the text
/// itself holds no nul byte.
pub proof fn lemma_cstr_roundtrip(c: CStrBytes, text: Seq<u8>)
    requires
        c.wf(),
        c.text() == text,
    ensures
        c@ == text.push(0u8),
        !text.contains(0u8),
{
    assert(c@ =~= c.text().push(c@.last()));
    if text.contains(0u8) {
        let k = choose|k: int| 0 <= k < text.len() && text[k] == 0u8;
        assert(c@[k] == 0u8);
    }
}

/// For any module exporting a well-formed identity record, the recovered
/// name, authors and version equal the original source text byte-for-byte
/// plus exactly one trailing nul byte, with no interior nul bytes.
pub proof fn lemma_identity_roundtrip(m: Meta, name: Seq<u8>, authors: Seq<u8>, version: Seq<u8>)
    requires
        m.wf(),
        m.built_from(name, authors, version),
    ensures
        m.name@ == name.push(0u8),
        m.authors@ == authors.push(0u8),
        m.version@ == version.push(0u8),
        !name.contains(0u8),
        !authors.contains(0u8),
        !version.contains(0u8),
{
    lemma_cstr_roundtrip(m.name, name);
    lemma_cstr_roundtrip(m.authors, authors);
    lemma_cstr_roundtrip(m.version, version);
}

/// The capability a module's constructed object must provide: one entry
/// point, invoked exactly once by the host after construction. The host
/// schedules it as an independent task, so instances must be transferable
/// across threads.
pub trait Plugin: Send + Sync {
    fn main(&self);
}

} // verus!
