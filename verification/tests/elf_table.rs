use calico::elf::{assemble, scan_elf, ElfError, ElfReadError, TestDefinition, TestTable};
use calico::rpc::{Test, TestOutcome};

struct Sec {
    name: &'static str,
    kind: u32,
    addr: u32,
    data: Vec<u8>,
}

struct Sym {
    name: Vec<u8>,
    value: u32,
    size: u32,
    info: u8,
    shndx: u16,
}

fn put16(v: &mut Vec<u8>, x: u16) {
    v.extend_from_slice(&x.to_le_bytes());
}

fn put32(v: &mut Vec<u8>, x: u32) {
    v.extend_from_slice(&x.to_le_bytes());
}

/// A 32-bit little-endian ARM executable ELF with the given sections (after
/// the null section), followed by `.symtab`, `.strtab` and `.shstrtab`.
fn build_elf(secs: Vec<Sec>, syms: Vec<Sym>) -> Vec<u8> {
    let mut strtab = vec![0u8];
    let mut symtab = vec![0u8; 16];
    for s in &syms {
        let off = strtab.len() as u32;
        strtab.extend_from_slice(&s.name);
        strtab.push(0);
        put32(&mut symtab, off);
        put32(&mut symtab, s.value);
        put32(&mut symtab, s.size);
        symtab.push(s.info);
        symtab.push(0);
        put16(&mut symtab, s.shndx);
    }
    let n_user = secs.len() as u32;
    let symtab_idx = n_user + 1;
    let strtab_idx = n_user + 2;
    let shstrtab_idx = n_user + 3;
    let mut shstrtab = vec![0u8];
    let mut all: Vec<(u32, u32, u32, u32, Vec<u8>, u32, u32, u32)> = vec![];
    for s in secs {
        let off = shstrtab.len() as u32;
        shstrtab.extend_from_slice(s.name.as_bytes());
        shstrtab.push(0);
        all.push((off, s.kind, 3, s.addr, s.data, 0, 0, 0));
    }
    let off = shstrtab.len() as u32;
    shstrtab.extend_from_slice(b".symtab\0");
    all.push((off, 2, 0, 0, symtab, strtab_idx, 1, 16));
    let off = shstrtab.len() as u32;
    shstrtab.extend_from_slice(b".strtab\0");
    all.push((off, 3, 0, 0, strtab, 0, 0, 0));
    let off = shstrtab.len() as u32;
    shstrtab.extend_from_slice(b".shstrtab\0");
    let shstrtab_copy = shstrtab.clone();
    all.push((off, 3, 0, 0, shstrtab_copy, 0, 0, 0));

    let mut body: Vec<u8> = vec![];
    let mut offsets = vec![];
    for s in &all {
        while (52 + body.len()) % 4 != 0 {
            body.push(0);
        }
        offsets.push(52 + body.len() as u32);
        if s.1 != 8 {
            body.extend_from_slice(&s.4);
        }
    }
    while (52 + body.len()) % 4 != 0 {
        body.push(0);
    }
    let shoff = 52 + body.len() as u32;

    let mut out = vec![0x7f, b'E', b'L', b'F', 1, 1, 1, 0, 0, 0, 0, 0, 0, 0, 0, 0];
    put16(&mut out, 2);
    put16(&mut out, 40);
    put32(&mut out, 1);
    put32(&mut out, 0);
    put32(&mut out, 0);
    put32(&mut out, shoff);
    put32(&mut out, 0);
    put16(&mut out, 52);
    put16(&mut out, 32);
    put16(&mut out, 0);
    put16(&mut out, 40);
    put16(&mut out, (all.len() + 1) as u16);
    put16(&mut out, shstrtab_idx as u16);
    out.extend_from_slice(&body);
    out.extend_from_slice(&[0u8; 40]);
    for (i, s) in all.iter().enumerate() {
        put32(&mut out, s.0);
        put32(&mut out, s.1);
        put32(&mut out, s.2);
        put32(&mut out, s.3);
        put32(&mut out, offsets[i]);
        put32(&mut out, s.4.len() as u32);
        put32(&mut out, s.5);
        put32(&mut out, s.6);
        put32(&mut out, 4);
        put32(&mut out, s.7);
    }
    let _ = symtab_idx;
    out
}

const GLOBAL_OBJECT: u8 = 0x11;
const LOCAL_OBJECT: u8 = 0x01;
const JSON: &str =
    r#"{"disambiguator":1,"name":"test1","ignored":false,"should_panic":false,"timeout":5}"#;

fn entry_bytes(test_fn: u32, path_ptr: u32, path_len: u32) -> Vec<u8> {
    let mut v = vec![];
    put32(&mut v, test_fn);
    put32(&mut v, path_ptr);
    put32(&mut v, path_len);
    v
}

/// `.calico` at 0x1000 holds the version word and one test case entry whose
/// module path lies in `.rodata` at 0x2000.
fn calico_elf(version: u32, version_size: u32, path: &[u8], path_ptr: u32) -> Vec<u8> {
    let mut calico = vec![];
    put32(&mut calico, version);
    calico.extend_from_slice(&[0u8; 4]);
    calico.extend(entry_bytes(0x0800_0101, path_ptr, path.len() as u32));
    build_elf(
        vec![
            Sec { name: ".calico", kind: 1, addr: 0x1000, data: calico },
            Sec { name: ".rodata", kind: 1, addr: 0x2000, data: path.to_vec() },
        ],
        vec![
            Sym { name: b"local_thing".to_vec(), value: 0x1000, size: 12, info: LOCAL_OBJECT, shndx: 1 },
            Sym { name: b"CALICO_VERSION".to_vec(), value: 0x1000, size: version_size, info: GLOBAL_OBJECT, shndx: 1 },
            Sym { name: JSON.as_bytes().to_vec(), value: 0x1008, size: 12, info: GLOBAL_OBJECT, shndx: 1 },
        ],
    )
}

fn scan_ok(elf: &[u8]) -> TestTable {
    match scan_elf(elf) {
        Some(Ok(table)) => table,
        Some(Err(e)) => panic!("unexpected error {:?}", e),
        None => panic!("unexpected incomplete decoding"),
    }
}

fn def(name: &str, ignored: bool, timeout: Option<u32>) -> TestDefinition {
    TestDefinition {
        disambiguator: 1,
        name: name.to_string(),
        ignored,
        should_panic: false,
        timeout,
    }
}

#[test]
fn decodes_a_test_case_entry() {
    let table = scan_ok(&calico_elf(0, 4, b"mycrate::example_tests", 0x2000));
    assert_eq!(table.version, 0);
    assert!(table.stop.is_none());
    assert_eq!(table.entries.len(), 1);
    assert_eq!(table.entries[0].definition, JSON);
    assert_eq!(table.entries[0].mod_path, "example_tests");
    assert_eq!(table.entries[0].address, 0x0800_0101);
}

#[test]
fn module_path_keeps_nested_modules() {
    let table = scan_ok(&calico_elf(0, 4, b"krate::a::b", 0x2000));
    assert_eq!(table.entries[0].mod_path, "a::b");
}

#[test]
fn assembles_tests_from_definitions() {
    let table = scan_ok(&calico_elf(0, 4, b"mycrate::example_tests", 0x2000));
    let info = assemble(table, vec![Ok(def("test1", true, Some(5)))]).unwrap();
    assert_eq!(info.version, 0);
    assert_eq!(
        info.tests,
        vec![Test {
            name: "example_tests::test1".to_string(),
            expected_outcome: TestOutcome {},
            ignored: true,
            timeout: Some(5),
            address: Some(0x0800_0101),
        }]
    );
}

#[test]
fn definition_into_test() {
    let t: Test = def("t", false, None).into();
    assert_eq!(t.name, "t");
    assert_eq!(t.address, None);
    assert!(!t.ignored);
}

#[test]
fn json_error_is_reported_first() {
    let table = TestTable {
        version: 0,
        entries: vec![
            calico::elf::TestEntry { definition: "{}".to_string(), mod_path: "m".to_string(), address: 1 },
            calico::elf::TestEntry { definition: "x".to_string(), mod_path: "m".to_string(), address: 2 },
        ],
        stop: Some(ElfReadError::ModulePathMissingColons),
    };
    let bad = serde_json::from_str::<serde_json::Value>("x").unwrap_err();
    match assemble(table, vec![Ok(def("a", false, None)), Err(bad)]) {
        Err(ElfReadError::InvalidTestcaseJSON(_)) => {}
        other => panic!("unexpected {:?}", other),
    }
}

#[test]
fn stop_error_is_reported_after_definitions() {
    let table = TestTable {
        version: 0,
        entries: vec![calico::elf::TestEntry { definition: "{}".to_string(), mod_path: "m".to_string(), address: 1 }],
        stop: Some(ElfReadError::ModSectionNotFound(7)),
    };
    match assemble(table, vec![Ok(def("a", false, None))]) {
        Err(ElfReadError::ModSectionNotFound(7)) => {}
        other => panic!("unexpected {:?}", other),
    }
}

#[test]
fn unknown_version() {
    match scan_elf(&calico_elf(3, 4, b"c::m", 0x2000)) {
        Some(Err(ElfError::ElfReadError(ElfReadError::UnknownVersion(3)))) => {}
        other => panic!("unexpected {:?}", other),
    }
}

#[test]
fn malformed_version() {
    match scan_elf(&calico_elf(0, 8, b"c::m", 0x2000)) {
        Some(Err(ElfError::ElfReadError(ElfReadError::MalformedVersion))) => {}
        other => panic!("unexpected {:?}", other),
    }
}

#[test]
fn module_path_outside_every_section() {
    let table = scan_ok(&calico_elf(0, 4, b"c::m", 0x9000));
    assert!(table.entries.is_empty());
    assert!(matches!(table.stop, Some(ElfReadError::ModSectionNotFound(0x9000))));
}

#[test]
fn module_path_without_colons() {
    let table = scan_ok(&calico_elf(0, 4, b"nocolons", 0x2000));
    assert!(matches!(table.stop, Some(ElfReadError::ModulePathMissingColons)));
}

#[test]
fn module_path_not_utf8() {
    let table = scan_ok(&calico_elf(0, 4, &[0x61, 0xff, 0x3a, 0x3a], 0x2000));
    assert!(matches!(table.stop, Some(ElfReadError::InvalidUTF8String(_))));
}

#[test]
fn missing_calico_section() {
    let elf = build_elf(
        vec![Sec { name: ".data", kind: 1, addr: 0x1000, data: vec![0; 4] }],
        vec![Sym { name: b"CALICO_VERSION".to_vec(), value: 0x1000, size: 4, info: GLOBAL_OBJECT, shndx: 1 }],
    );
    match scan_elf(&elf) {
        Some(Err(ElfError::ElfReadError(ElfReadError::NoCalicoSection))) => {}
        other => panic!("unexpected {:?}", other),
    }
}

#[test]
fn missing_version_symbol() {
    let elf = build_elf(
        vec![Sec { name: ".calico", kind: 1, addr: 0x1000, data: vec![0; 4] }],
        vec![Sym { name: b"OTHER".to_vec(), value: 0x1000, size: 4, info: GLOBAL_OBJECT, shndx: 1 }],
    );
    match scan_elf(&elf) {
        Some(Err(ElfError::ElfReadError(ElfReadError::NoVersionFound))) => {}
        other => panic!("unexpected {:?}", other),
    }
}

#[test]
fn no_symbols() {
    let elf = build_elf(vec![Sec { name: ".calico", kind: 1, addr: 0x1000, data: vec![0; 4] }], vec![]);
    match scan_elf(&elf) {
        Some(Err(ElfError::ElfReadError(ElfReadError::NoSymbols))) => {}
        other => panic!("unexpected {:?}", other),
    }
}

#[test]
fn not_an_object_file() {
    match scan_elf(b"definitely not an elf") {
        Some(Err(ElfError::ParseError(_))) => {}
        other => panic!("unexpected {:?}", other),
    }
}

#[test]
fn test_case_data_outside_its_section_is_incomplete() {
    let elf = build_elf(
        vec![Sec { name: ".calico", kind: 1, addr: 0x1000, data: vec![0; 4] }],
        vec![
            Sym { name: b"CALICO_VERSION".to_vec(), value: 0x1000, size: 4, info: GLOBAL_OBJECT, shndx: 1 },
            Sym { name: JSON.as_bytes().to_vec(), value: 0x1010, size: 12, info: GLOBAL_OBJECT, shndx: 1 },
        ],
    );
    assert!(scan_elf(&elf).is_none());
}
