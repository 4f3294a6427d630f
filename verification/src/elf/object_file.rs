//! Access to object files through the `object` crate.
//!
//! The trusted items of this module read an object file with `object` and
//! hand its symbols and sections out as plain values. What `object` computes
//! from the file's bytes is named by the specification functions below: each
//! is a function of the bytes alone, and nothing here states what it is.

use vstd::prelude::*;

#[allow(unused_imports)]
use object::{Object, ObjectSection, ObjectSymbol};

verus! {

/// `object::Error`: a static description of a malformed object file.
#[verifier::external_type_specification]
#[verifier::external_body]
pub struct ExObjectError(object::Error);

/// A parsed `object::File`, held opaquely: Verus refuses a declaration of
/// `object::File` (its bound `object::ReadRef` is unknown to it).
#[verifier::external_body]
struct ObjectFile<'a>(object::File<'a>);

/// A symbol of an object file, as the decoder reads it.
pub struct ElfSymbol {
    /// The symbol's name, or why it cannot be read as UTF-8.
    pub name: Result<String, object::Error>,
    /// Whether the symbol is visible outside its object file.
    pub is_global: bool,
    /// Whether the symbol names data.
    pub is_data: bool,
    /// The index of the section that defines the symbol.
    pub section_index: Option<usize>,
    /// The symbol's address.
    pub address: u64,
    /// The symbol's size.
    pub size: u64,
}

/// A section of an object file, as the decoder reads it.
#[derive(Clone, Copy)]
pub struct ElfSection {
    /// The section's index.
    pub index: usize,
    /// The section's address in memory.
    pub address: u64,
    /// The section's size in memory.
    pub size: u64,
    /// The section's offset and size in the file, where it occupies any.
    pub file_range: Option<(u64, u64)>,
}

/// The error that `object::File::parse` reports for `data`; `None` where it accepts `data`.
pub uninterp spec fn object_parse_error(data: Seq<u8>) -> Option<object::Error>;

/// The symbols that `object::Object::symbols` lists for the object file `data`, in order.
pub uninterp spec fn object_symbols(data: Seq<u8>) -> Seq<ElfSymbol>;

/// The sections that `object::Object::sections` lists for the object file `data`, in order.
pub uninterp spec fn object_sections(data: Seq<u8>) -> Seq<ElfSection>;

/// The section that `object::Object::section_by_name` finds for `name` in the object file `data`.
pub uninterp spec fn object_section_by_name(data: Seq<u8>, name: Seq<char>) -> Option<ElfSection>;

/// What `object::ObjectSection::data_range` returns for the range of `size`
/// bytes at `address` of the section with index `section` in the object file `data`.
pub uninterp spec fn object_data_range(
    data: Seq<u8>,
    section: usize,
    address: u64,
    size: u64,
) -> Result<Option<Seq<u8>>, object::Error>;

/// The bytes of a section range, by their view.
pub open spec fn range_view(r: Result<Option<Vec<u8>>, object::Error>) -> Result<Option<Seq<u8>>, object::Error> {
    match r {
        Ok(Some(v)) => Ok(Some(v@)),
        Ok(None) => Ok(None),
        Err(e) => Err(e),
    }
}

/// Parses a buffer containing an ELF binary into the required info.
///
/// A reader is made only by [`ElfReader::parse`], so that `elf` is always the
/// parse of `buffer`.
pub(crate) struct ElfReader<'a> {
    buffer: &'a [u8],
    elf: ObjectFile<'a>,
}

impl<'a> ElfReader<'a> {
    /// The bytes of the object file.
    pub(crate) closed spec fn data(&self) -> Seq<u8> {
        self.buffer@
    }

    /// The bytes of the object file.
    pub(crate) fn buffer(&self) -> (b: &'a [u8])
        ensures
            b@ == self.data(),
    {
        self.buffer
    }

    /// `object::File::parse`: succeeds exactly where `object_parse_error` is
    /// `None`, and the reader keeps the bytes that it was parsed from;
    /// otherwise the error that `object_parse_error` names.
    #[verifier::external_body]
    pub(crate) fn parse(buffer: &'a [u8]) -> (r: Result<ElfReader<'a>, object::Error>)
        ensures
            r matches Ok(reader) ==> object_parse_error(buffer@) is None && reader.data() == buffer@,
            r matches Err(e) ==> object_parse_error(buffer@) == Some(e),
    {
        match object::File::parse(buffer) {
            Ok(elf) => Ok(ElfReader { buffer, elf: ObjectFile(elf) }),
            Err(e) => Err(e),
        }
    }

    /// `object::Object::symbols`, counted.
    #[verifier::external_body]
    pub(crate) fn symbol_count(&self) -> (n: usize)
        ensures
            n == object_symbols(self.data()).len(),
    {
        self.elf.0.symbols().count()
    }

    /// The `i`-th symbol of `object::Object::symbols`, as plain values.
    #[verifier::external_body]
    pub(crate) fn symbol_at(&self, i: usize) -> (sym: ElfSymbol)
        requires
            i < object_symbols(self.data()).len(),
        ensures
            sym == object_symbols(self.data())[i as int],
    {
        let sym = self.elf.0.symbols().nth(i).unwrap();
        ElfSymbol {
            name: sym.name().map(|n| n.to_string()),
            is_global: sym.is_global(),
            is_data: sym.kind() == object::SymbolKind::Data,
            section_index: sym.section_index().map(|s| s.0),
            address: sym.address(),
            size: sym.size(),
        }
    }

    /// `object::Object::sections`, counted.
    #[verifier::external_body]
    pub(crate) fn section_count(&self) -> (n: usize)
        ensures
            n == object_sections(self.data()).len(),
    {
        self.elf.0.sections().count()
    }

    /// The `i`-th section of `object::Object::sections`, as plain values.
    #[verifier::external_body]
    pub(crate) fn section_at(&self, i: usize) -> (sec: ElfSection)
        requires
            i < object_sections(self.data()).len(),
        ensures
            sec == object_sections(self.data())[i as int],
    {
        let sec = self.elf.0.sections().nth(i).unwrap();
        ElfSection { index: sec.index().0, address: sec.address(), size: sec.size(), file_range: sec.file_range() }
    }

    /// `object::Object::section_by_name`, as plain values.
    #[verifier::external_body]
    pub(crate) fn section_by_name(&self, name: &str) -> (sec: Option<ElfSection>)
        ensures
            sec == object_section_by_name(self.data(), name@),
    {
        self.elf.0.section_by_name(name).map(|sec| ElfSection {
            index: sec.index().0, address: sec.address(), size: sec.size(), file_range: sec.file_range(),
        })
    }

    /// `object::ObjectSection::data_range` of the section with the given index, copied out.
    #[verifier::external_body]
    pub(crate) fn data_range(&self, section: usize, address: u64, size: u64) -> (r: Result<Option<Vec<u8>>, object::Error>)
        ensures
            range_view(r) == object_data_range(self.data(), section, address, size),
    {
        match self.elf.0.section_by_index(object::SectionIndex(section)) {
            Ok(sec) => sec.data_range(address, size).map(|d| d.map(|b| b.to_vec())),
            Err(e) => Err(e),
        }
    }
}

} // verus!
