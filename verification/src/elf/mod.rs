//! Reading the test table that Calico embeds in the ELF of a test binary.
//!
//! ELFs built for Calico contain a section called `.calico` that holds the
//! protocol version (symbol `CALICO_VERSION`) and one 12-byte symbol per test
//! case: the address of the test function, then the address and length of its
//! module path, each a little-endian `u32`. The name of a test case symbol is a
//! JSON object describing the test ([`TestDefinition`]).

use vstd::prelude::*;
use vstd::slice::slice_subrange;
use vstd::string::StringSliceAdditionalSpecFns;
use vstd::utf8::{decode_utf8, encode_utf8_decode_utf8, valid_utf8};

use crate::rpc::{Test, TestOutcome};

pub mod object_file;

use self::object_file::{
    object_data_range, object_parse_error, object_section_by_name, object_sections,
    object_symbols, ElfReader, ElfSection, ElfSymbol,
};

verus! {

/// `core::str::Utf8Error`: why a byte string is not UTF-8.
#[verifier::external_type_specification]
#[verifier::external_body]
pub struct ExUtf8Error(core::str::Utf8Error);

/// `std::io::Error`: a failed file operation.
#[verifier::external_type_specification]
#[verifier::external_body]
pub struct ExIoError(std::io::Error);

/// `serde_json::Error`: a failed JSON decoding.
#[verifier::external_type_specification]
#[verifier::external_body]
pub struct ExJsonError(serde_json::Error);

/// The error that `core::str::from_utf8` reports for `bytes`.
pub uninterp spec fn utf8_error(bytes: Seq<u8>) -> core::str::Utf8Error;

/// `core::str::from_utf8`: views `bytes` as text exactly where they are valid
/// UTF-8; the text has the same bytes. Otherwise the error that `utf8_error` names.
#[verifier::external_body]
fn str_from_utf8(bytes: &[u8]) -> (r: Result<&str, core::str::Utf8Error>)
    ensures
        r is Ok <==> valid_utf8(bytes@),
        r matches Ok(s) ==> s.spec_bytes() == bytes@,
        r matches Err(e) ==> e == utf8_error(bytes@),
{
    core::str::from_utf8(bytes)
}

/// Defines the structure of a test defined in the Calico ELF table.
#[derive(Debug)]
pub struct TestDefinition {
    pub disambiguator: u64,
    pub name: String,
    pub ignored: bool,
    pub should_panic: bool,
    pub timeout: Option<u32>,
}

impl From<TestDefinition> for Test {
    fn from(val: TestDefinition) -> (t: Test) {
        Test {
            name: val.name,
            expected_outcome: TestOutcome {  },
            ignored: val.ignored,
            timeout: val.timeout,
            address: None,
        }
    }
}

impl vstd::std_specs::convert::FromSpecImpl<TestDefinition> for Test {
    open spec fn obeys_from_spec() -> bool {
        true
    }

    open spec fn from_spec(val: TestDefinition) -> Test {
        Test {
            name: val.name,
            expected_outcome: TestOutcome {  },
            ignored: val.ignored,
            timeout: val.timeout,
            address: None,
        }
    }
}

/// Struct holding test info extracted from
/// the INFO section of an ELF binary.
#[derive(Debug, PartialEq)]
pub struct TestElfInfo {
    /// Version of Calico that the ELF was compiled against.
    pub version: u32,
    /// Tests found in the elf.
    pub tests: Vec<Test>,
}

/// Failures of reading an ELF file.
#[derive(Debug)]
pub enum ElfError {
    FileOpenError(std::io::Error),
    FileReadError(std::io::Error),
    ParseError(object::Error),
    ElfReadError(ElfReadError),
}

impl From<std::io::Error> for ElfError {
    fn from(value: std::io::Error) -> (e: Self) {
        ElfError::FileReadError(value)
    }
}

impl vstd::std_specs::convert::FromSpecImpl<std::io::Error> for ElfError {
    open spec fn obeys_from_spec() -> bool {
        true
    }

    open spec fn from_spec(value: std::io::Error) -> ElfError {
        ElfError::FileReadError(value)
    }
}

/// Failures of decoding the Calico test table of an ELF.
#[derive(Debug)]
pub enum ElfReadError {
    NoSymbols,
    NoCalicoSection,
    /// No CALICO_VERSION symbol in ELF
    NoVersionFound,
    /// Failed to read the Calico version symbol
    MalformedVersion,
    UnknownVersion(u32),
    /// Module path does not contain '::'
    ModulePathMissingColons,
    /// Section not found for mod path str {mod_path_ptr:x}
    ModSectionNotFound(u32),
    /// Indicates there where issues reading from the ELF.
    InvalidElf(object::Error),
    /// Indicates that we weren't able to parse the JSON data for a test case.
    InvalidTestcaseJSON(serde_json::Error),
    InvalidUTF8String(core::str::Utf8Error),
}

impl From<object::Error> for ElfReadError {
    fn from(value: object::Error) -> (e: Self) {
        ElfReadError::InvalidElf(value)
    }
}

impl vstd::std_specs::convert::FromSpecImpl<object::Error> for ElfReadError {
    open spec fn obeys_from_spec() -> bool {
        true
    }

    open spec fn from_spec(value: object::Error) -> ElfReadError {
        ElfReadError::InvalidElf(value)
    }
}

impl From<serde_json::Error> for ElfReadError {
    fn from(value: serde_json::Error) -> (e: Self) {
        ElfReadError::InvalidTestcaseJSON(value)
    }
}

impl vstd::std_specs::convert::FromSpecImpl<serde_json::Error> for ElfReadError {
    open spec fn obeys_from_spec() -> bool {
        true
    }

    open spec fn from_spec(value: serde_json::Error) -> ElfReadError {
        ElfReadError::InvalidTestcaseJSON(value)
    }
}

impl From<core::str::Utf8Error> for ElfReadError {
    fn from(value: core::str::Utf8Error) -> (e: Self) {
        ElfReadError::InvalidUTF8String(value)
    }
}

impl vstd::std_specs::convert::FromSpecImpl<core::str::Utf8Error> for ElfReadError {
    open spec fn obeys_from_spec() -> bool {
        true
    }

    open spec fn from_spec(value: core::str::Utf8Error) -> ElfReadError {
        ElfReadError::InvalidUTF8String(value)
    }
}

/// A test case entry of the test table, before its definition is decoded.
#[derive(Debug)]
pub struct TestEntry {
    /// The name of the test case symbol: a JSON object describing the test.
    pub definition: String,
    /// The module path of the test, without its crate name.
    pub mod_path: String,
    /// The address of the test function.
    pub address: u32,
}

/// A test case entry, by its text.
pub struct EntryModel {
    pub definition: Seq<char>,
    pub mod_path: Seq<char>,
    pub address: u32,
}

impl View for TestEntry {
    type V = EntryModel;

    open spec fn view(&self) -> EntryModel {
        EntryModel { definition: self.definition@, mod_path: self.mod_path@, address: self.address }
    }
}

/// The test table of an ELF: the protocol version, the test case entries in
/// symbol order, and the error that stopped the reading of entries, if any.
#[derive(Debug)]
pub struct TestTable {
    pub version: u32,
    pub entries: Vec<TestEntry>,
    pub stop: Option<ElfReadError>,
}

/// A test table, by its entries' text.
pub struct TableModel {
    pub version: u32,
    pub entries: Seq<EntryModel>,
    pub stop: Option<ElfReadError>,
}

impl View for TestTable {
    type V = TableModel;

    open spec fn view(&self) -> TableModel {
        TableModel {
            version: self.version,
            entries: self.entries@.map_values(|e: TestEntry| e@),
            stop: self.stop,
        }
    }
}

/// The size of a test case symbol: `(fn() -> !, &'static str)` on a 32-bit target.
pub const TESTCASE_SYM_SIZE: u64 = 12;

/// The little-endian `u32` at `at` in `b`.
pub open spec fn le_u32(b: Seq<u8>, at: int) -> u32 {
    (b[at] + 256 * b[at + 1] + 65536 * b[at + 2] + 16777216 * b[at + 3]) as u32
}

/// Whether `sym` meets the first-pass criteria for a test case symbol:
/// global data of the Calico section, of the size of a test case entry.
pub open spec fn is_testcase_symbol(sym: ElfSymbol, calico: ElfSection) -> bool {
    &&& sym.is_global
    &&& sym.is_data
    &&& sym.section_index == Some(calico.index)
    &&& sym.size == TESTCASE_SYM_SIZE
}

/// The first symbol at or after `i` named `name`.
pub open spec fn find_symbol_from(syms: Seq<ElfSymbol>, i: int, name: Seq<char>) -> Option<int>
    decreases syms.len() - i,
{
    if i < 0 || i >= syms.len() {
        None
    } else if syms[i].name matches Ok(n) && n@ == name {
        Some(i)
    } else {
        find_symbol_from(syms, i + 1, name)
    }
}

/// The search for the first section at or after `i` that holds the `len` bytes
/// at address `ptr`: `None` where the end of a section that starts at or below
/// `ptr` does not fit in a `u64`.
pub open spec fn find_section_from(sections: Seq<ElfSection>, i: int, ptr: u32, len: u32) -> Option<
    Option<int>,
>
    decreases sections.len() - i,
{
    if i < 0 || i >= sections.len() {
        Some(None)
    } else if (ptr as u64) < sections[i].address {
        find_section_from(sections, i + 1, ptr, len)
    } else if sections[i].address + sections[i].size > u64::MAX {
        None
    } else if ptr + len <= sections[i].address + sections[i].size {
        Some(Some(i))
    } else {
        find_section_from(sections, i + 1, ptr, len)
    }
}

/// The position of the first "::" at or after `i` in `s`.
pub open spec fn find_colons_from(s: Seq<char>, i: int) -> Option<int>
    decreases s.len() - i,
{
    if i < 0 || i + 1 >= s.len() {
        None
    } else if s[i] == ':' && s[i + 1] == ':' {
        Some(i)
    } else {
        find_colons_from(s, i + 1)
    }
}

/// Reading the module path of `len` bytes at address `ptr` from the object
/// file `data`: the path without its crate name, or the error; `None` where
/// the reading would not complete (the holding section has no file range, or
/// the range lies outside the file).
pub open spec fn mod_path_outcome(data: Seq<u8>, ptr: u32, len: u32) -> Option<
    Result<Seq<char>, ElfReadError>,
> {
    let sections = object_sections(data);
    match find_section_from(sections, 0, ptr, len) {
        None => None,
        Some(None) => Some(Err(ElfReadError::ModSectionNotFound(ptr))),
        Some(Some(i)) => match sections[i].file_range {
            None => None,
            Some((start, _)) => {
                let offset = start + (ptr - sections[i].address);
                let first = (offset as u64) as usize;
                if offset > u64::MAX || first + len > usize::MAX || first + len > data.len() {
                    None
                } else {
                    let bytes = data.subrange(first as int, first + len);
                    if !valid_utf8(bytes) {
                        Some(Err(ElfReadError::InvalidUTF8String(utf8_error(bytes))))
                    } else {
                        let text = decode_utf8(bytes);
                        match find_colons_from(text, 0) {
                            None => Some(Err(ElfReadError::ModulePathMissingColons)),
                            Some(c) => Some(Ok(text.subrange(c + 2, text.len() as int))),
                        }
                    }
                }
            },
        },
    }
}

/// Decoding one symbol of the object file `data` as a test case: `Ok(None)`
/// for a symbol that is no test case, the entry, or the error; `None` where the
/// decoding would not complete (the symbol's data lies outside its section).
pub open spec fn testcase_outcome(data: Seq<u8>, calico: ElfSection, sym: ElfSymbol) -> Option<
    Result<Option<EntryModel>, ElfReadError>,
> {
    if !is_testcase_symbol(sym, calico) {
        Some(Ok(None))
    } else {
        match object_data_range(data, calico.index, sym.address, sym.size) {
            Err(e) => Some(Err(ElfReadError::InvalidElf(e))),
            Ok(None) => None,
            Ok(Some(d)) => if d.len() < 12 {
                None
            } else {
                match mod_path_outcome(data, le_u32(d, 4), le_u32(d, 8)) {
                    None => None,
                    Some(Err(e)) => Some(Err(e)),
                    Some(Ok(path)) => match sym.name {
                        Err(e) => Some(Err(ElfReadError::InvalidElf(e))),
                        Ok(name) => Some(
                            Ok(Some(EntryModel { definition: name@, mod_path: path, address: le_u32(d, 0) })),
                        ),
                    },
                }
            },
        }
    }
}

/// Decoding the symbols from `i` on: the entries found, in order, up to the
/// first error, and that error; `None` where a decoding would not complete.
pub open spec fn scan_from(data: Seq<u8>, calico: ElfSection, i: int) -> Option<(Seq<EntryModel>, Option<ElfReadError>)>
    decreases object_symbols(data).len() - i,
{
    let syms = object_symbols(data);
    if i < 0 || i >= syms.len() {
        Some((Seq::empty(), None))
    } else {
        match testcase_outcome(data, calico, syms[i]) {
            None => None,
            Some(Err(e)) => Some((Seq::empty(), Some(e))),
            Some(Ok(None)) => scan_from(data, calico, i + 1),
            Some(Ok(Some(entry))) => match scan_from(data, calico, i + 1) {
                None => None,
                Some((rest, stop)) => Some((seq![entry] + rest, stop)),
            },
        }
    }
}

/// The protocol version and the Calico section of the object file `data`, or
/// the error that the table's header gives.
pub open spec fn header_outcome(data: Seq<u8>) -> Result<(u32, ElfSection), ElfReadError> {
    let syms = object_symbols(data);
    if syms.len() == 0 {
        Err(ElfReadError::NoSymbols)
    } else {
        match object_section_by_name(data, ".calico"@) {
            None => Err(ElfReadError::NoCalicoSection),
            Some(calico) => match find_symbol_from(syms, 0, "CALICO_VERSION"@) {
                None => Err(ElfReadError::NoVersionFound),
                Some(v) => match object_data_range(data, calico.index, syms[v].address, syms[v].size) {
                    Ok(Some(d)) => if d.len() != 4 {
                        Err(ElfReadError::MalformedVersion)
                    } else if le_u32(d, 0) != 0 {
                        Err(ElfReadError::UnknownVersion(le_u32(d, 0)))
                    } else {
                        Ok((le_u32(d, 0), calico))
                    },
                    _ => Err(ElfReadError::MalformedVersion),
                },
            },
        }
    }
}

/// Decoding the test table of the object file `data`; `None` where the
/// decoding would not complete.
pub open spec fn table_outcome(data: Seq<u8>) -> Option<Result<TableModel, ElfReadError>> {
    match header_outcome(data) {
        Err(e) => Some(Err(e)),
        Ok((version, calico)) => match scan_from(data, calico, 0) {
            None => None,
            Some((entries, stop)) => Some(Ok(TableModel { version, entries, stop })),
        },
    }
}

/// A decoding result, by its view.
pub open spec fn table_result_view(r: Option<Result<TestTable, ElfReadError>>) -> Option<Result<TableModel, ElfReadError>> {
    match r {
        None => None,
        Some(Ok(t)) => Some(Ok(t@)),
        Some(Err(e)) => Some(Err(e)),
    }
}

/// A module path reading, by its text.
pub open spec fn mod_path_view(r: Option<Result<&str, ElfReadError>>) -> Option<Result<Seq<char>, ElfReadError>> {
    match r {
        None => None,
        Some(Ok(s)) => Some(Ok(s@)),
        Some(Err(e)) => Some(Err(e)),
    }
}

/// A symbol decoding, by its view.
pub open spec fn testcase_view(r: Option<Result<Option<TestEntry>, ElfReadError>>) -> Option<Result<Option<EntryModel>, ElfReadError>> {
    match r {
        None => None,
        Some(Ok(None)) => Some(Ok(None)),
        Some(Ok(Some(e))) => Some(Ok(Some(e@))),
        Some(Err(e)) => Some(Err(e)),
    }
}

/// The decoding of the symbols from some point on, behind entries already found.
pub open spec fn behind(found: Seq<EntryModel>, rest: Option<(Seq<EntryModel>, Option<ElfReadError>)>) -> Option<(Seq<EntryModel>, Option<ElfReadError>)> {
    match rest {
        None => None,
        Some((es, stop)) => Some((found + es, stop)),
    }
}

/// The little-endian `u32` at `at` in `d`.
fn le_u32_at(d: &Vec<u8>, at: usize) -> (v: u32)
    requires
        at + 4 <= d.len(),
    ensures
        v == le_u32(d@, at as int),
{
    let b0 = d[at] as u32;
    let b1 = d[at + 1] as u32;
    let b2 = d[at + 2] as u32;
    let b3 = d[at + 3] as u32;
    assert(b0 < 256 && b1 < 256 && b2 < 256 && b3 < 256);
    b0 + b1 * 256 + b2 * 65536 + b3 * 16777216
}

impl<'a> ElfReader<'a> {
    /// The text after the first "::" in `text`; `ModulePathMissingColons`
    /// where there is none.
    fn strip_crate_name(text: &'a str) -> (r: Result<&'a str, ElfReadError>)
        ensures
            match find_colons_from(text@, 0) {
                None => r matches Err(ElfReadError::ModulePathMissingColons),
                Some(c) => r matches Ok(s) && s@ == text@.subrange(c + 2, text@.len() as int),
            },
    {
        let l = text.unicode_len();
        let mut j: usize = 0;
        while l > 0 && j < l - 1
            invariant
                l == text@.len(),
                j <= l,
                find_colons_from(text@, 0) == find_colons_from(text@, j as int),
            decreases l - j,
        {
            if text.get_char(j) == ':' && text.get_char(j + 1) == ':' {
                return Ok(text.substring_char(j + 2, l));
            }
            j += 1;
        }
        Err(ElfReadError::ModulePathMissingColons)
    }

    /// The module path held by `section`, the first section that holds the
    /// `len` bytes at address `ptr`.
    fn read_mod_path_in(&self, section: &ElfSection, ptr: u32, len: u32) -> (r: Option<Result<&'a str, ElfReadError>>)
        requires
            ptr as u64 >= section.address,
        ensures
            mod_path_view(r) == match section.file_range {
                None => None,
                Some((start, _)) => {
                    let offset = start + (ptr - section.address);
                    let first = (offset as u64) as usize;
                    if offset > u64::MAX || first + len > usize::MAX || first + len > self.data().len() {
                        None
                    } else {
                        let bytes = self.data().subrange(first as int, first + len);
                        if !valid_utf8(bytes) {
                            Some(Err(ElfReadError::InvalidUTF8String(utf8_error(bytes))))
                        } else {
                            let text = decode_utf8(bytes);
                            match find_colons_from(text, 0) {
                                None => Some(Err(ElfReadError::ModulePathMissingColons)),
                                Some(c) => Some(Ok(text.subrange(c + 2, text.len() as int))),
                            }
                        }
                    }
                },
            },
    {
        let start = match section.file_range {
            None => return None,
            Some((start, _)) => start,
        };
        let relative = ptr as u64 - section.address;
        if start > u64::MAX - relative {
            return None;
        }
        let offset = start + relative;
        let first = offset as usize;
        if first > usize::MAX - len as usize {
            return None;
        }
        let end = first + len as usize;
        let buffer = self.buffer();
        if end > buffer.len() {
            return None;
        }
        let bytes = slice_subrange(buffer, first, end);
        match str_from_utf8(bytes) {
            Err(e) => Some(Err(ElfReadError::InvalidUTF8String(e))),
            Ok(text) => {
                proof {
                    encode_utf8_decode_utf8(text@);
                }
                Some(Self::strip_crate_name(text))
            },
        }
    }

    /// Reads the module path of `len` bytes at address `ptr`, without its
    /// crate name; `None` where the path's bytes cannot be located in the file.
    pub(crate) fn read_mod_path(&self, mod_path_ptr: u32, mod_path_len: u32) -> (r: Option<Result<&'a str, ElfReadError>>)
        ensures
            mod_path_view(r) == mod_path_outcome(self.data(), mod_path_ptr, mod_path_len),
    {
        let ghost sections = object_sections(self.data());
        let n = self.section_count();
        let mut i: usize = 0;
        while i < n
            invariant
                n == sections.len(),
                sections == object_sections(self.data()),
                i <= n,
                find_section_from(sections, 0, mod_path_ptr, mod_path_len) == find_section_from(
                    sections,
                    i as int,
                    mod_path_ptr,
                    mod_path_len,
                ),
            decreases n - i,
        {
            let section = self.section_at(i);
            if mod_path_ptr as u64 >= section.address {
                if section.address > u64::MAX - section.size {
                    return None;
                }
                if mod_path_ptr as u64 + mod_path_len as u64 <= section.address + section.size {
                    return self.read_mod_path_in(&section, mod_path_ptr, mod_path_len);
                }
            }
            i += 1;
        }
        Some(Err(ElfReadError::ModSectionNotFound(mod_path_ptr)))
    }

    /// Attempts to decode a symbol read from the ELF as a test case.
    ///
    /// A testcase is stored as tuple of testfunc + module_path
    /// and has type `(fn()->!, &'static str)` which is 12 bytes.
    /// The symbol name is a JSON object containing info about the test.
    pub(crate) fn try_decode_testcase_sym(&self, sym: &ElfSymbol, calico_section: &ElfSection) -> (r: Option<
        Result<Option<TestEntry>, ElfReadError>,
    >)
        ensures
            testcase_view(r) == testcase_outcome(self.data(), *calico_section, *sym),
    {
        let in_section = match sym.section_index {
            Some(index) => index == calico_section.index,
            None => false,
        };
        if !sym.is_global || !sym.is_data || !in_section || sym.size != TESTCASE_SYM_SIZE {
            return Some(Ok(None));
        }
        let sym_data = match self.data_range(calico_section.index, sym.address, sym.size) {
            Err(e) => return Some(Err(ElfReadError::InvalidElf(e))),
            Ok(None) => return None,
            Ok(Some(d)) => d,
        };
        if sym_data.len() < 12 {
            return None;
        }
        let test_fn_ptr = le_u32_at(&sym_data, 0);
        let mod_path_ptr = le_u32_at(&sym_data, 4);
        let mod_path_len = le_u32_at(&sym_data, 8);
        let mod_path = match self.read_mod_path(mod_path_ptr, mod_path_len) {
            None => return None,
            Some(Err(e)) => return Some(Err(e)),
            Some(Ok(path)) => path,
        };
        match &sym.name {
            Err(e) => Some(Err(ElfReadError::InvalidElf(*e))),
            Ok(name) => Some(
                Ok(
                    Some(
                        TestEntry {
                            definition: name.clone(),
                            mod_path: String::from_str(mod_path),
                            address: test_fn_ptr,
                        },
                    ),
                ),
            ),
        }
    }

    /// The first symbol named `name`, as `object::Object::symbol_by_name` finds it.
    fn symbol_named(&self, name: &String) -> (r: Option<ElfSymbol>)
        ensures
            match find_symbol_from(object_symbols(self.data()), 0, name@) {
                None => r is None,
                Some(v) => r == Some(object_symbols(self.data())[v]),
            },
    {
        let ghost syms = object_symbols(self.data());
        let n = self.symbol_count();
        let mut v: usize = 0;
        while v < n
            invariant
                n == syms.len(),
                syms == object_symbols(self.data()),
                v <= n,
                find_symbol_from(syms, 0, name@) == find_symbol_from(syms, v as int, name@),
            decreases n - v,
        {
            let sym = self.symbol_at(v);
            let matches = match &sym.name {
                Ok(sym_name) => *sym_name == *name,
                Err(_) => false,
            };
            if matches {
                return Some(sym);
            }
            v += 1;
        }
        None
    }

    /// Decodes the test table; `None` where a test case symbol's data, or its
    /// module path, cannot be located in the file.
    pub(crate) fn decode(&self) -> (r: Option<Result<TestTable, ElfReadError>>)
        ensures
            table_result_view(r) == table_outcome(self.data()),
    {
        let ghost data = self.data();
        let ghost syms = object_symbols(data);
        let n = self.symbol_count();
        if n == 0 {
            return Some(Err(ElfReadError::NoSymbols));
        }
        // Find the .calico section containing test case info.
        let calico_section = match self.section_by_name(".calico") {
            None => return Some(Err(ElfReadError::NoCalicoSection)),
            Some(section) => section,
        };
        // The Calico version the ELF was compiled against defines the
        // protocol format between the runner and the binary.
        let version_name = String::from_str("CALICO_VERSION");
        let version_sym = match self.symbol_named(&version_name) {
            None => return Some(Err(ElfReadError::NoVersionFound)),
            Some(sym) => sym,
        };
        let version = match self.data_range(calico_section.index, version_sym.address, version_sym.size) {
            Ok(Some(d)) => {
                if d.len() != 4 {
                    return Some(Err(ElfReadError::MalformedVersion));
                }
                le_u32_at(&d, 0)
            },
            _ => return Some(Err(ElfReadError::MalformedVersion)),
        };
        if version != 0 {
            return Some(Err(ElfReadError::UnknownVersion(version)));
        }
        // Read test cases from the symbols.
        let mut entries: Vec<TestEntry> = Vec::new();
        let mut i: usize = 0;
        while i < n
            invariant
                n == syms.len(),
                data == self.data(),
                header_outcome(data) == Ok::<(u32, ElfSection), ElfReadError>((version, calico_section)),
                syms == object_symbols(self.data()),
                i <= n,
                scan_from(data, calico_section, 0) == behind(
                    entries@.map_values(|e: TestEntry| e@),
                    scan_from(data, calico_section, i as int),
                ),
            decreases n - i,
        {
            let sym = self.symbol_at(i);
            let outcome = self.try_decode_testcase_sym(&sym, &calico_section);
            assert(scan_from(data, calico_section, i as int) == match testcase_outcome(data, calico_section, syms[i as int]) {
                None => None,
                Some(Err(e)) => Some((Seq::<EntryModel>::empty(), Some(e))),
                Some(Ok(None)) => scan_from(data, calico_section, i + 1),
                Some(Ok(Some(entry))) => match scan_from(data, calico_section, i + 1) {
                    None => None,
                    Some((rest, stop)) => Some((seq![entry] + rest, stop)),
                },
            });
            match outcome {
                None => return None,
                Some(Err(e)) => {
                    assert(entries@.map_values(|e: TestEntry| e@) + Seq::<EntryModel>::empty()
                        =~= entries@.map_values(|e: TestEntry| e@));
                    return Some(Ok(TestTable { version, entries, stop: Some(e) }));
                },
                Some(Ok(None)) => {},
                Some(Ok(Some(entry))) => {
                    let ghost before = entries@.map_values(|e: TestEntry| e@);
                    let ghost model = entry@;
                    entries.push(entry);
                    assert(entries@.map_values(|e: TestEntry| e@) =~= before.push(model));
                    assert forall|rest: Seq<EntryModel>| before + (seq![model] + rest) =~= before.push(model) + rest by {}
                },
            }
            i += 1;
        }
        assert(entries@.map_values(|e: TestEntry| e@) + Seq::<EntryModel>::empty()
            =~= entries@.map_values(|e: TestEntry| e@));
        Some(Ok(TestTable { version, entries, stop: None }))
    }
}

/// Parses the object file in `buffer` and decodes its test table; `None`
/// where the decoding would not complete.
pub fn scan_elf(buffer: &[u8]) -> (r: Option<Result<TestTable, ElfError>>)
    ensures
        match object_parse_error(buffer@) {
            Some(e) => r == Some(Err::<TestTable, ElfError>(ElfError::ParseError(e))),
            None => match table_outcome(buffer@) {
                None => r is None,
                Some(Ok(t)) => r matches Some(Ok(table)) && table@ == t,
                Some(Err(e)) => r == Some(Err::<TestTable, ElfError>(ElfError::ElfReadError(e))),
            },
        },
{
    let reader = match ElfReader::parse(buffer) {
        Ok(reader) => reader,
        Err(e) => return Some(Err(ElfError::ParseError(e))),
    };
    match reader.decode() {
        None => None,
        Some(Ok(table)) => Some(Ok(table)),
        Some(Err(e)) => Some(Err(ElfError::ElfReadError(e))),
    }
}

/// The position of the first failed decoding at or after `i`.
pub open spec fn first_error_from(defs: Seq<Result<TestDefinition, serde_json::Error>>, i: int) -> Option<int>
    decreases defs.len() - i,
{
    if i < 0 || i >= defs.len() {
        None
    } else if defs[i] is Err {
        Some(i)
    } else {
        first_error_from(defs, i + 1)
    }
}

/// `t` is the test that `entry` and its decoded definition `def` describe:
/// the definition's test, named by its module path, at the entry's address.
pub open spec fn describes(t: Test, entry: TestEntry, def: TestDefinition) -> bool {
    &&& t.name@ == entry.mod_path@ + "::"@ + def.name@
    &&& t.expected_outcome == TestOutcome {  }
    &&& t.ignored == def.ignored
    &&& t.timeout == def.timeout
    &&& t.address == Some(entry.address)
}

/// Assembles the tests of `table` from the decoding of each entry's
/// definition (`definitions[i]` for `table.entries[i]`): the first failed
/// decoding is reported, then the error that stopped the table's reading, if
/// any; otherwise the tests, in entry order.
pub fn assemble(table: TestTable, definitions: Vec<Result<TestDefinition, serde_json::Error>>) -> (r: Result<TestElfInfo, ElfReadError>)
    requires
        definitions.len() == table.entries.len(),
    ensures
        match first_error_from(definitions@, 0) {
            Some(k) => r == Err::<TestElfInfo, ElfReadError>(
                ElfReadError::InvalidTestcaseJSON(definitions@[k]->Err_0),
            ),
            None => match table.stop {
                Some(e) => r == Err::<TestElfInfo, ElfReadError>(e),
                None => r matches Ok(info) && info.version == table.version && info.tests.len()
                    == table.entries.len() && forall|i: int|
                    0 <= i < table.entries.len() ==> describes(
                        #[trigger] info.tests@[i],
                        table.entries@[i],
                        definitions@[i]->Ok_0,
                    ),
            },
        },
{
    let n = definitions.len();
    let mut k: usize = 0;
    while k < n
        invariant
            n == definitions.len(),
            k <= n,
            first_error_from(definitions@, 0) == first_error_from(definitions@, k as int),
            forall|j: int| 0 <= j < k ==> definitions@[j] is Ok,
        decreases n - k,
    {
        if definitions[k].is_err() {
            let mut definitions = definitions;
            let failed = definitions.remove(k);
            return match failed {
                Err(e) => Err(ElfReadError::InvalidTestcaseJSON(e)),
                Ok(_) => {
                    // The decoding at `k` is the failed one.
                    proof {
                        assert(false);
                    }
                    Err(ElfReadError::MalformedVersion)
                },
            };
        }
        k += 1;
    }
    match table.stop {
        Some(e) => return Err(e),
        None => {},
    }
    let mut tests: Vec<Test> = Vec::new();
    let mut i: usize = 0;
    while i < n
        invariant
            n == definitions.len(),
            n == table.entries.len(),
            i <= n,
            tests.len() == i,
            first_error_from(definitions@, 0) is None,
            forall|j: int| 0 <= j < n ==> definitions@[j] is Ok,
            forall|j: int|
                0 <= j < i ==> describes(#[trigger] tests@[j], table.entries@[j], definitions@[j]->Ok_0),
        decreases n - i,
    {
        let entry = &table.entries[i];
        match &definitions[i] {
            Ok(def) => {
                let mut name = entry.mod_path.clone();
                name.append("::");
                name.append(def.name.as_str());
                tests.push(
                    Test {
                        name,
                        expected_outcome: TestOutcome {  },
                        ignored: def.ignored,
                        timeout: def.timeout,
                        address: Some(entry.address),
                    },
                );
            },
            Err(_) => {},
        }
        i += 1;
    }
    Ok(TestElfInfo { version: table.version, tests })
}


/// Whether symbol `k` of the object file `data` decodes to a test case entry.
pub open spec fn is_entry_at(data: Seq<u8>, calico: ElfSection, k: int) -> bool {
    testcase_outcome(data, calico, object_symbols(data)[k]) matches Some(Ok(Some(_)))
}

/// How many of the symbols `i..j` of `data` decode to test case entries.
pub open spec fn entry_count(data: Seq<u8>, calico: ElfSection, i: int, j: int) -> nat
    decreases j - i,
{
    if j <= i {
        0
    } else {
        entry_count(data, calico, i, j - 1) + if is_entry_at(data, calico, j - 1) {
            1nat
        } else {
            0nat
        }
    }
}

/// Counting from `i` is counting symbol `i`, then counting from `i + 1`.
proof fn lemma_entry_count_front(data: Seq<u8>, calico: ElfSection, i: int, j: int)
    requires
        i < j,
    ensures
        entry_count(data, calico, i, j) == entry_count(data, calico, i + 1, j) + if is_entry_at(
            data,
            calico,
            i,
        ) {
            1nat
        } else {
            0nat
        },
    decreases j - i,
{
    assert(entry_count(data, calico, i, i) == 0);
    assert(entry_count(data, calico, i + 1, i + 1) == 0);
    if i + 1 < j {
        lemma_entry_count_front(data, calico, i, j - 1);
    }
}

/// Counting over a longer range counts no fewer entries, and an entry at `k`
/// is counted in any range from `i` that reaches past `k`.
proof fn lemma_entry_count_grows(data: Seq<u8>, calico: ElfSection, i: int, k: int, j: int)
    requires
        i <= k < j,
    ensures
        entry_count(data, calico, i, k) <= entry_count(data, calico, i, j),
        is_entry_at(data, calico, k) ==> entry_count(data, calico, i, k) < entry_count(data, calico, i, j),
    decreases j - k,
{
    if k + 1 < j {
        lemma_entry_count_grows(data, calico, i, k + 1, j);
    }
}

/// The scan from symbol `i` keeps every test case it meets: where the symbols
/// `i..m` all decode without error, and `m` is the last symbol or one whose
/// decoding fails with `err`, the scan yields one entry per test case symbol
/// of `i..m`, in symbol order (the entry of symbol `k` comes after the
/// entries of the test case symbols before it), and stops with `err`, or with
/// nothing where `m` is the end.
pub proof fn lemma_scan_keeps_every_test_case(
    data: Seq<u8>,
    calico: ElfSection,
    i: int,
    m: int,
    err: ElfReadError,
)
    requires
        0 <= i <= m <= object_symbols(data).len(),
        forall|k: int|
            i <= k < m ==> testcase_outcome(data, calico, #[trigger] object_symbols(data)[k]) matches Some(Ok(_)),
        m < object_symbols(data).len() ==> testcase_outcome(data, calico, object_symbols(data)[m])
            == Some(Err::<Option<EntryModel>, ElfReadError>(err)),
    ensures
        scan_from(data, calico, i) matches Some((es, stop)) && es.len() == entry_count(data, calico, i, m)
            && stop == (if m < object_symbols(data).len() { Some(err) } else { None }) && forall|k: int|
            i <= k < m && #[trigger] is_entry_at(data, calico, k) ==> testcase_outcome(
                data,
                calico,
                object_symbols(data)[k],
            ) == Some(Ok::<Option<EntryModel>, ElfReadError>(Some(es[entry_count(data, calico, i, k) as int]))),
    decreases m - i,
{
    let syms = object_symbols(data);
    if i == m {
    } else {
        assert(testcase_outcome(data, calico, syms[i]) matches Some(Ok(_)));
        lemma_scan_keeps_every_test_case(data, calico, i + 1, m, err);
        lemma_entry_count_front(data, calico, i, m);
        let (rest, stop) = scan_from(data, calico, i + 1)->0;
        assert forall|k: int| i < k <= m implies entry_count(data, calico, i, k) == entry_count(data, calico, i + 1, k)
            + (if is_entry_at(data, calico, i) { 1nat } else { 0nat }) by {
            lemma_entry_count_front(data, calico, i, k);
        }
        match testcase_outcome(data, calico, syms[i]) {
            Some(Ok(Some(entry))) => {
                let es = seq![entry] + rest;
                assert(scan_from(data, calico, i) == Some((es, stop)));
                assert forall|k: int|
                    i <= k < m && #[trigger] is_entry_at(data, calico, k) implies testcase_outcome(
                    data,
                    calico,
                    syms[k],
                ) == Some(Ok::<Option<EntryModel>, ElfReadError>(Some(es[entry_count(data, calico, i, k) as int]))) by {
                    if k > i {
                        let c = entry_count(data, calico, i + 1, k) as int;
                        lemma_entry_count_grows(data, calico, i + 1, k, m);
                        assert(entry_count(data, calico, i, k) == c + 1);
                        assert(es[c + 1] == rest[c]);
                    } else {
                        assert(entry_count(data, calico, i, i) == 0);
                    }
                }
            },
            _ => {
                assert(scan_from(data, calico, i) == Some((rest, stop)));
                assert forall|k: int|
                    i <= k < m && #[trigger] is_entry_at(data, calico, k) implies testcase_outcome(
                    data,
                    calico,
                    syms[k],
                ) == Some(Ok::<Option<EntryModel>, ElfReadError>(Some(rest[entry_count(data, calico, i, k) as int]))) by {
                    assert(k > i);
                    assert(entry_count(data, calico, i, k) == entry_count(data, calico, i + 1, k));
                }
            },
        }
    }
}

/// The decoding of a test table keeps every test case: where the header
/// reads and every symbol decodes without error, the table has the header's
/// version, no stop error, one entry per test case symbol, and the entry of
/// symbol `k` comes after the entries of the test case symbols before it.
pub proof fn lemma_table_keeps_every_test_case(data: Seq<u8>)
    requires
        header_outcome(data) is Ok,
        forall|k: int|
            0 <= k < object_symbols(data).len() ==> testcase_outcome(
                data,
                header_outcome(data)->Ok_0.1,
                #[trigger] object_symbols(data)[k],
            ) matches Some(Ok(_)),
    ensures
        ({
            let calico = header_outcome(data)->Ok_0.1;
            let n = object_symbols(data).len() as int;
            &&& table_outcome(data) matches Some(Ok(t))
            &&& t.version == header_outcome(data)->Ok_0.0
            &&& t.stop is None
            &&& t.entries.len() == entry_count(data, calico, 0, n)
            &&& forall|k: int|
                0 <= k < n && #[trigger] is_entry_at(data, calico, k) ==> testcase_outcome(
                    data,
                    calico,
                    object_symbols(data)[k],
                ) == Some(Ok::<Option<EntryModel>, ElfReadError>(Some(t.entries[entry_count(data, calico, 0, k) as int])))
        }),
{
    let calico = header_outcome(data)->Ok_0.1;
    let n = object_symbols(data).len() as int;
    lemma_scan_keeps_every_test_case(data, calico, 0, n, ElfReadError::NoSymbols);
}

} // verus!
