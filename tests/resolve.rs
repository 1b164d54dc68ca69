use offset_scan::builder::{Acquired, BuildError, ModulePatterns, OffsetMap, OffsetMapBuilder};
use offset_scan::image::Reading;
use offset_scan::pattern::{find, match_at, Atom};
use offset_scan::registry::{
    atom_from_code, capture_count, is_valid, pattern_from_codes, targets, ANY, SAVE, SKIP1,
    SKIP4,
};
use offset_scan::resolver::{resolve, Derivation, PatternEntry, Resolution};

const CODE_START: usize = 0x180;
const IMAGE_LEN: usize = 0x200;

fn put_u16(b: &mut [u8], at: usize, v: u16) {
    b[at..at + 2].copy_from_slice(&v.to_le_bytes());
}

fn put_u32(b: &mut [u8], at: usize, v: u32) {
    b[at..at + 4].copy_from_slice(&v.to_le_bytes());
}

/// A mapped PE32+ image of 0x200 bytes with no sections, whose code range
/// is `code_base .. code_base + code_size`, holding `code` at 0x180.
fn pe_image_with_range(code: &[u8], code_base: u32, code_size: u32) -> Vec<u8> {
    let mut b = vec![0u8; IMAGE_LEN];
    b[0] = b'M';
    b[1] = b'Z';
    put_u32(&mut b, 0x3c, 0x40);
    b[0x40..0x44].copy_from_slice(b"PE\0\0");
    put_u16(&mut b, 0x44, 0x8664);
    put_u16(&mut b, 0x44 + 16, 0xf0);
    let opt = 0x58;
    put_u16(&mut b, opt, 0x20b);
    put_u32(&mut b, opt + 4, code_size);
    put_u32(&mut b, opt + 20, code_base);
    put_u32(&mut b, opt + 32, 0x1000);
    put_u32(&mut b, opt + 36, 0x200);
    put_u32(&mut b, opt + 56, IMAGE_LEN as u32);
    put_u32(&mut b, opt + 60, CODE_START as u32);
    b[CODE_START..CODE_START + code.len()].copy_from_slice(code);
    b
}

fn pe_image(code: &[u8]) -> Vec<u8> {
    pe_image_with_range(code, CODE_START as u32, (IMAGE_LEN - CODE_START) as u32)
}

fn foo_entry() -> PatternEntry {
    PatternEntry {
        name: "foo".to_string(),
        pattern: vec![Atom::Byte(0xAA), Atom::Byte(0xBB), Atom::Save, Atom::Any, Atom::Byte(0xDD)],
        slot: 0,
        reading: Reading::Address,
        derive: None,
    }
}

fn pairs(r: &Resolution) -> Vec<(String, u32)> {
    (0..r.offsets.len())
        .map(|i| {
            let (n, v) = r.offsets.entry(i);
            (n.to_string(), v)
        })
        .collect()
}

fn map_pairs(m: &OffsetMap) -> Vec<(String, Vec<(String, u32)>)> {
    (0..m.len())
        .map(|i| {
            let (name, t) = m.module(i);
            let offs = (0..t.len())
                .map(|j| {
                    let (n, v) = t.entry(j);
                    (n.to_string(), v)
                })
                .collect();
            (name.to_string(), offs)
        })
        .collect()
}

#[test]
fn capture_at_wildcard_resolves() {
    let img = [0x00, 0xAA, 0xBB, 0x7F, 0xDD, 0x00];
    let r = resolve(&img, 0, img.len(), &vec![foo_entry()]);
    assert_eq!(pairs(&r), vec![("foo".to_string(), 3)]);
    assert!(r.stale.is_empty());
}

#[test]
fn fixed_byte_mismatch_is_stale() {
    let img = [0x00, 0xAA, 0xCC, 0x7F, 0xDD];
    let r = resolve(&img, 0, img.len(), &vec![foo_entry()]);
    assert_eq!(r.offsets.len(), 0);
    assert_eq!(r.stale, vec!["foo".to_string()]);
}

#[test]
fn single_embedding_returns_every_capture() {
    let pat = vec![
        Atom::Save,
        Atom::Byte(0x11),
        Atom::Skip(2),
        Atom::Save,
        Atom::Byte(0x22),
    ];
    let mut img = vec![0u8; 16];
    img[7] = 0x11;
    img[10] = 0x22;
    assert_eq!(find(&img, 0, img.len(), &pat), Some(vec![7, 10]));
}

#[test]
fn first_occurrence_wins() {
    let pat = vec![Atom::Byte(0x90), Atom::Save];
    let img = [0x00, 0x90, 0x00, 0x90, 0x00];
    assert_eq!(find(&img, 0, img.len(), &pat), Some(vec![2]));
    assert_eq!(find(&img, 2, img.len(), &pat), Some(vec![4]));
}

#[test]
fn scan_stays_inside_window() {
    let pat = vec![Atom::Save, Atom::Byte(0xAA), Atom::Byte(0xBB)];
    let img = [0xAA, 0xBB, 0x00, 0x00];
    assert_eq!(find(&img, 1, img.len(), &pat), None);
    assert_eq!(find(&img, 0, 1, &pat), None);
    assert_eq!(find(&img, 0, 2, &pat), Some(vec![0]));
    assert_eq!(find(&img, 3, 1, &pat), None);
}

#[test]
fn empty_pattern_matches_at_window_start() {
    let img = [1u8, 2, 3];
    assert_eq!(find(&img, 1, 3, &[]), Some(vec![]));
    assert_eq!(find(&[], 0, 0, &[Atom::Save]), Some(vec![0]));
}

#[test]
fn match_at_checks_one_position() {
    let pat = vec![Atom::Byte(0x01), Atom::Save];
    let img = [0x01, 0x01];
    assert_eq!(match_at(&img, 2, &pat, 1), Some(vec![2]));
    assert_eq!(match_at(&img, 1, &pat, 1), None);
    assert_eq!(match_at(&img, 2, &pat, 3), None);
}

#[test]
fn mutated_fixed_bytes_find_nothing() {
    let pat = vec![Atom::Byte(0xAA), Atom::Any, Atom::Save, Atom::Byte(0xDD)];
    let good = [0xAA, 0x01, 0xDD];
    assert_eq!(find(&good, 0, 3, &pat), Some(vec![2]));
    for k in [0usize, 2] {
        let mut bad = good;
        bad[k] ^= 0xFF;
        assert_eq!(find(&bad, 0, 3, &pat), None);
        let entry = PatternEntry {
            name: "bar".to_string(),
            pattern: pat.clone(),
            slot: 0,
            reading: Reading::Address,
            derive: None,
        };
        let r = resolve(&bad, 0, 3, &vec![entry]);
        assert_eq!(r.offsets.len(), 0);
        assert_eq!(r.stale, vec!["bar".to_string()]);
    }
}

#[test]
fn resolving_twice_gives_the_same_offsets() {
    let img = [0x00, 0xAA, 0xBB, 0x7F, 0xDD, 0x00, 0x10];
    let entries = vec![
        foo_entry(),
        PatternEntry {
            name: "missing".to_string(),
            pattern: vec![Atom::Byte(0xEE)],
            slot: 0,
            reading: Reading::Address,
            derive: None,
        },
    ];
    let a = resolve(&img, 0, img.len(), &entries);
    let b = resolve(&img, 0, img.len(), &entries);
    assert_eq!(pairs(&a), pairs(&b));
    assert_eq!(a.stale, b.stale);
    assert_eq!(a.stale, vec!["missing".to_string()]);
}

#[test]
fn relative_reading_follows_displacement() {
    // 48 89 05 <disp> at 2: target = 2 + 3 + 4 + disp.
    let mut img = vec![0u8; 32];
    img[2..5].copy_from_slice(&[0x48, 0x89, 0x05]);
    img[5..9].copy_from_slice(&0x10i32.to_le_bytes());
    let pat = pattern_from_codes(&[0x48, 0x89, 0x05, SAVE, SKIP4]);
    let mk = |reading| PatternEntry {
        name: "g".to_string(),
        pattern: pat.clone(),
        slot: 0,
        reading,
        derive: None,
    };
    let r = resolve(&img, 0, img.len(), &vec![mk(Reading::Relative(0))]);
    assert_eq!(pairs(&r), vec![("g".to_string(), 5 + 4 + 0x10)]);
    let r = resolve(&img, 0, img.len(), &vec![mk(Reading::Relative(8))]);
    assert_eq!(pairs(&r), vec![("g".to_string(), 5 + 4 + 0x10 + 8)]);
    let r = resolve(&img, 0, img.len(), &vec![mk(Reading::U32)]);
    assert_eq!(pairs(&r), vec![("g".to_string(), 0x10)]);
    let r = resolve(&img, 0, img.len(), &vec![mk(Reading::U8)]);
    assert_eq!(pairs(&r), vec![("g".to_string(), 0x10)]);
}

#[test]
fn negative_displacement_wraps_to_earlier_address() {
    let mut img = vec![0u8; 32];
    img[20..22].copy_from_slice(&[0x8b, 0x05]);
    img[22..26].copy_from_slice(&(-24i32).to_le_bytes());
    let entry = PatternEntry {
        name: "w".to_string(),
        pattern: pattern_from_codes(&[0x8b, 0x05, SAVE, SKIP4]),
        slot: 0,
        reading: Reading::Relative(0),
        derive: None,
    };
    let r = resolve(&img, 0, img.len(), &vec![entry]);
    assert_eq!(pairs(&r), vec![("w".to_string(), 2)]);
}

#[test]
fn reading_past_image_end_is_stale() {
    let img = [0x00, 0xC7, 0x01, 0x02];
    let entry = PatternEntry {
        name: "short".to_string(),
        pattern: vec![Atom::Byte(0xC7), Atom::Save],
        slot: 0,
        reading: Reading::U32,
        derive: None,
    };
    let r = resolve(&img, 0, img.len(), &vec![entry]);
    assert_eq!(r.offsets.len(), 0);
    assert_eq!(r.stale, vec!["short".to_string()]);
}

#[test]
fn missing_capture_slot_is_stale() {
    let img = [0xAA, 0xBB];
    let entry = PatternEntry {
        name: "slot".to_string(),
        pattern: vec![Atom::Byte(0xAA), Atom::Save],
        slot: 1,
        reading: Reading::Address,
        derive: None,
    };
    let r = resolve(&img, 0, img.len(), &vec![entry]);
    assert_eq!(r.stale, vec!["slot".to_string()]);
}

fn anchored(anchor_disp: i32) -> (Vec<u8>, PatternEntry) {
    let mut img = vec![0u8; 64];
    img[0..3].copy_from_slice(&[0x48, 0x8d, 0x05]);
    img[3..7].copy_from_slice(&anchor_disp.to_le_bytes());
    img[40..43].copy_from_slice(&[0x4c, 0x39, 0xb6]);
    img[43..47].copy_from_slice(&0x30u32.to_le_bytes());
    let entry = PatternEntry {
        name: "anchor".to_string(),
        pattern: pattern_from_codes(&[0x48, 0x8d, 0x05, SAVE, SKIP4]),
        slot: 0,
        reading: Reading::Relative(0),
        derive: Some(Derivation {
            name: "derived".to_string(),
            pattern: pattern_from_codes(&[0x4c, 0x39, 0xb6, SAVE, SKIP4]),
            slot: 0,
            reading: Reading::U32,
        }),
    };
    (img, entry)
}

#[test]
fn derivation_adds_value_to_anchor() {
    let (img, entry) = anchored(0x10);
    let r = resolve(&img, 0, img.len(), &vec![entry]);
    assert_eq!(
        pairs(&r),
        vec![("anchor".to_string(), 0x17), ("derived".to_string(), 0x17 + 0x30)]
    );
}

#[test]
fn derivation_skipped_when_anchor_outside_image() {
    let (img, entry) = anchored(0x1000);
    let r = resolve(&img, 0, img.len(), &vec![entry]);
    assert_eq!(pairs(&r), vec![("anchor".to_string(), 0x1007)]);
    assert!(r.stale.is_empty());
}

#[test]
fn derivation_without_secondary_match_adds_nothing() {
    let (mut img, entry) = anchored(0x10);
    img[40] = 0;
    let r = resolve(&img, 0, img.len(), &vec![entry]);
    assert_eq!(pairs(&r), vec![("anchor".to_string(), 0x17)]);
    assert!(r.stale.is_empty());
}

#[test]
fn later_insert_of_same_name_wins_in_place() {
    let img = [0x01, 0x02, 0x03];
    let e = |name: &str, b: u8| PatternEntry {
        name: name.to_string(),
        pattern: vec![Atom::Save, Atom::Byte(b)],
        slot: 0,
        reading: Reading::Address,
        derive: None,
    };
    let r = resolve(&img, 0, 3, &vec![e("x", 0x01), e("y", 0x02), e("x", 0x03)]);
    assert_eq!(pairs(&r), vec![("x".to_string(), 2), ("y".to_string(), 1)]);
    assert_eq!(r.offsets.get(&"x".to_string()), Some(2));
    assert_eq!(r.offsets.get(&"z".to_string()), None);
}

#[test]
fn codes_decode_to_atoms() {
    assert_eq!(atom_from_code(0x48), Atom::Byte(0x48));
    assert_eq!(atom_from_code(SAVE), Atom::Save);
    assert_eq!(atom_from_code(ANY), Atom::Any);
    assert_eq!(atom_from_code(SKIP1), Atom::Skip(1));
    assert_eq!(atom_from_code(SKIP4), Atom::Skip(4));
    assert_eq!(
        pattern_from_codes(&[0xff, SAVE, SKIP4, ANY]),
        vec![Atom::Byte(0xff), Atom::Save, Atom::Skip(4), Atom::Any]
    );
}

fn two_modules() -> Vec<ModulePatterns> {
    vec![
        ModulePatterns { module: "first.dll".to_string(), entries: vec![foo_entry()] },
        ModulePatterns { module: "second.dll".to_string(), entries: vec![foo_entry()] },
    ]
}

#[test]
fn second_module_missing_aborts_build() {
    let mut b = OffsetMapBuilder::new(two_modules());
    assert_eq!(b.next_module().map(|s| s.as_str()), Some("first.dll"));
    let stale = b.feed(Acquired::Image(pe_image(&[0x00, 0xAA, 0xBB, 0x7F, 0xDD])));
    assert!(stale.is_empty());
    assert_eq!(b.next_module().map(|s| s.as_str()), Some("second.dll"));
    let stale = b.feed(Acquired::NotFound);
    assert!(stale.is_empty());
    assert_eq!(b.next_module(), None);
    match b.finish() {
        Err(BuildError::ModuleNotFound(m)) => assert_eq!(m, "second.dll"),
        Err(e) => panic!("unexpected error {:?}", e),
        Ok(_) => panic!("a map was handed out"),
    }
}

#[test]
fn first_module_missing_stops_before_second() {
    let mut b = OffsetMapBuilder::new(two_modules());
    b.feed(Acquired::NotFound);
    assert_eq!(b.next_module(), None);
    assert!(matches!(b.finish(), Err(BuildError::ModuleNotFound(ref m)) if m == "first.dll"));
}

#[test]
fn read_failure_aborts_build() {
    let mut b = OffsetMapBuilder::new(two_modules());
    b.feed(Acquired::ReadFailed);
    assert_eq!(b.next_module(), None);
    assert!(matches!(b.finish(), Err(BuildError::MemoryReadFailure(ref m)) if m == "first.dll"));
}

#[test]
fn malformed_image_aborts_build() {
    let mut b = OffsetMapBuilder::new(two_modules());
    let mut img = pe_image(&[0x00, 0xAA, 0xBB, 0x7F, 0xDD]);
    img[0] = b'X';
    b.feed(Acquired::Image(img));
    assert_eq!(b.next_module(), None);
    assert!(matches!(b.finish(), Err(BuildError::MalformedImage(ref m)) if m == "first.dll"));
    let mut b = OffsetMapBuilder::new(two_modules());
    b.feed(Acquired::Image(vec![0u8; 8]));
    assert!(matches!(b.finish(), Err(BuildError::MalformedImage(_))));
}

#[test]
fn every_module_found_gives_full_map() {
    let mut b = OffsetMapBuilder::new(two_modules());
    let stale = b.feed(Acquired::Image(pe_image(&[0x00, 0xAA, 0xBB, 0x7F, 0xDD])));
    assert!(stale.is_empty());
    let stale = b.feed(Acquired::Image(pe_image(&[0x00, 0x00, 0x00])));
    assert_eq!(stale, vec!["foo".to_string()]);
    assert_eq!(b.next_module(), None);
    let m = match b.finish() {
        Ok(m) => m,
        Err(e) => panic!("unexpected error {:?}", e),
    };
    assert_eq!(
        map_pairs(&m),
        vec![
            ("first.dll".to_string(), vec![("foo".to_string(), 0x183)]),
            ("second.dll".to_string(), vec![]),
        ]
    );
    let t = m.table(&"first.dll".to_string()).unwrap();
    assert_eq!(t.get(&"foo".to_string()), Some(0x183));
    assert!(m.table(&"third.dll".to_string()).is_none());
}

#[test]
fn scan_is_limited_to_code_range() {
    // Same bytes, but the header puts the code range after them.
    let mut b = OffsetMapBuilder::new(two_modules());
    let img = pe_image_with_range(&[0x00, 0xAA, 0xBB, 0x7F, 0xDD], 0x190, 0x70);
    let stale = b.feed(Acquired::Image(img));
    assert_eq!(stale, vec!["foo".to_string()]);
    // Headers hold the pattern's bytes outside the code range too.
    let mut b = OffsetMapBuilder::new(two_modules());
    let mut img = pe_image(&[]);
    img[0x150..0x154].copy_from_slice(&[0xAA, 0xBB, 0x01, 0xDD]);
    let stale = b.feed(Acquired::Image(img));
    assert_eq!(stale, vec!["foo".to_string()]);
}

#[test]
fn registry_lists_five_modules_in_order() {
    let t = targets();
    let names: Vec<&str> = t.iter().map(|m| m.module.as_str()).collect();
    assert_eq!(
        names,
        vec!["client.dll", "engine2.dll", "inputsystem.dll", "matchmaking.dll", "soundsystem.dll"]
    );
    let counts: Vec<usize> = t.iter().map(|m| m.entries.len()).collect();
    assert_eq!(counts, vec![15, 11, 1, 1, 2]);
    for m in &t {
        for (i, a) in m.entries.iter().enumerate() {
            assert!(m.entries[i + 1..].iter().all(|b| b.name != a.name));
        }
    }
}

#[test]
fn registry_finds_window_size_in_engine_image() {
    let mut code = vec![0u8; 0x40];
    // mov eax, [rip+0x20]; mov [rbx], eax
    code[0..2].copy_from_slice(&[0x8b, 0x05]);
    code[2..6].copy_from_slice(&0x20u32.to_le_bytes());
    code[6..8].copy_from_slice(&[0x89, 0x03]);
    // mov eax, [rip+0x30]; mov [rdi], eax
    code[0x10..0x12].copy_from_slice(&[0x8b, 0x05]);
    code[0x12..0x16].copy_from_slice(&0x30u32.to_le_bytes());
    code[0x16..0x18].copy_from_slice(&[0x89, 0x07]);
    let engine = targets().into_iter().nth(1).unwrap();
    let mut b = OffsetMapBuilder::new(vec![engine]);
    let stale = b.feed(Acquired::Image(pe_image(&code)));
    assert_eq!(stale.len(), 9);
    let m = match b.finish() {
        Ok(m) => m,
        Err(e) => panic!("unexpected error {:?}", e),
    };
    let t = m.table(&"engine2.dll".to_string()).unwrap();
    assert_eq!(t.get(&"dwWindowHeight".to_string()), Some(0x180 + 6 + 0x20));
    assert_eq!(t.get(&"dwWindowWidth".to_string()), Some(0x190 + 6 + 0x30));
    assert_eq!(t.len(), 2);
}

#[test]
fn shipped_registrations_are_valid() {
    for m in targets() {
        assert!(is_valid(&m), "{}", m.module);
    }
}

#[test]
fn counts_capture_markers() {
    assert_eq!(capture_count(&vec![]), 0);
    assert_eq!(capture_count(&vec![Atom::Save, Atom::Any, Atom::Save, Atom::Skip(3)]), 2);
}

#[test]
fn invalid_registrations_are_refused() {
    let dup = ModulePatterns { module: "m".to_string(), entries: vec![foo_entry(), foo_entry()] };
    assert!(!is_valid(&dup));
    let mut high = foo_entry();
    high.slot = 1;
    let bad_slot = ModulePatterns { module: "m".to_string(), entries: vec![high] };
    assert!(!is_valid(&bad_slot));
    let (_, mut e) = anchored(0);
    e.derive.as_mut().unwrap().slot = 1;
    let bad_derive = ModulePatterns { module: "m".to_string(), entries: vec![e] };
    assert!(!is_valid(&bad_derive));
    let ok = ModulePatterns { module: "m".to_string(), entries: vec![foo_entry(), anchored(0).1] };
    assert!(is_valid(&ok));
}

#[test]
fn parsed_range_decides_window() {
    let img = vec![0x00, 0xAA, 0xBB, 0x7F, 0xDD, 0x00];
    let mut b = OffsetMapBuilder::new(two_modules());
    let stale = b.feed_parsed(Acquired::Image(img.clone()), Some((0, 6)));
    assert!(stale.is_empty());
    let stale = b.feed_parsed(Acquired::Image(img.clone()), Some((2, 0x1000)));
    assert_eq!(stale, vec!["foo".to_string()]);
    let m = match b.finish() {
        Ok(m) => m,
        Err(e) => panic!("unexpected error {:?}", e),
    };
    assert_eq!(
        map_pairs(&m),
        vec![
            ("first.dll".to_string(), vec![("foo".to_string(), 3)]),
            ("second.dll".to_string(), vec![]),
        ]
    );
}

#[test]
fn unparsed_image_is_malformed() {
    let mut b = OffsetMapBuilder::new(two_modules());
    let stale = b.feed_parsed(Acquired::Image(vec![0x00, 0xAA, 0xBB, 0x7F, 0xDD]), None);
    assert!(stale.is_empty());
    assert_eq!(b.next_module(), None);
    assert!(matches!(b.finish(), Err(BuildError::MalformedImage(ref m)) if m == "first.dll"));
}

#[test]
fn inverted_code_range_scans_nothing() {
    let mut b = OffsetMapBuilder::new(two_modules());
    let stale = b.feed_parsed(Acquired::Image(vec![0x00, 0xAA, 0xBB, 0x7F, 0xDD]), Some((4, 1)));
    assert_eq!(stale, vec!["foo".to_string()]);
}
