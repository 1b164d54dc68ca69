use vstd::prelude::*;
use crate::builder::ModulePatterns;
use crate::image::Reading;
use crate::pattern::{captures, Atom};
use crate::resolver::{Derivation, PatternEntry};

verus! {

/// Code of a capture marker in a pattern written as codes.
pub const SAVE: u16 = 0x100;

/// Code of a single byte of any value.
pub const ANY: u16 = 0x101;

/// Code of a one-byte run of any value; `0x200 + n` skips `n` bytes.
pub const SKIP1: u16 = 0x201;

/// Code of a four-byte run of any value.
pub const SKIP4: u16 = 0x204;

/// The atom a code stands for: below `0x100` a fixed byte, `SAVE` a
/// capture marker, up to `0x1FF` any one byte, from `0x200` on a run of
/// `code - 0x200` bytes of any value.
pub open spec fn atom_of_code(c: u16) -> Atom {
    if c < 0x100 {
        Atom::Byte(c as u8)
    } else if c == SAVE {
        Atom::Save
    } else if c < 0x200 {
        Atom::Any
    } else {
        Atom::Skip((c - 0x200) as usize)
    }
}

pub fn atom_from_code(c: u16) -> (a: Atom)
    ensures
        a == atom_of_code(c),
{
    if c < 0x100 {
        Atom::Byte(c as u8)
    } else if c == SAVE {
        Atom::Save
    } else if c < 0x200 {
        Atom::Any
    } else {
        Atom::Skip((c - 0x200) as usize)
    }
}

/// The pattern a sequence of codes stands for, atom by atom.
pub fn pattern_from_codes(codes: &[u16]) -> (p: Vec<Atom>)
    ensures
        p@ == codes@.map_values(|c: u16| atom_of_code(c)),
{
    let mut p: Vec<Atom> = Vec::new();
    let mut i: usize = 0;
    while i < codes.len()
        invariant
            0 <= i <= codes@.len(),
            p@ == codes@.take(i as int).map_values(|c: u16| atom_of_code(c)),
        decreases codes@.len() - i,
    {
        p.push(atom_from_code(codes[i]));
        proof {
            assert(codes@.take(i + 1).map_values(|c: u16| atom_of_code(c)) =~= codes@.take(
                i as int,
            ).map_values(|c: u16| atom_of_code(c)).push(atom_of_code(codes@[i as int])));
        }
        i = i + 1;
    }
    proof {
        assert(codes@.take(i as int) =~= codes@);
    }
    p
}

/// The entries of a module can be used as registered: names are unique, and
/// every chosen capture slot, of an entry or of its derivation, exists in its
/// pattern.
pub open spec fn entries_valid(es: Seq<PatternEntry>) -> bool {
    &&& forall|i: int, j: int|
        0 <= i < es.len() && 0 <= j < es.len() && i != j ==> #[trigger] es[i].name@ != #[trigger] es[j].name@
    &&& forall|i: int| 0 <= i < es.len() ==> slots_exist(#[trigger] es[i])
}

pub open spec fn slots_exist(e: PatternEntry) -> bool {
    &&& e.slot < captures(e.pattern@, 0).len()
    &&& match e.derive {
        Some(d) => d.slot < captures(d.pattern@, 0).len(),
        None => true,
    }
}

/// Number of capture markers in a pattern.
pub fn capture_count(p: &Vec<Atom>) -> (r: usize)
    ensures
        r == captures(p@, 0).len(),
{
    let mut n: usize = 0;
    let mut k: usize = 0;
    while k < p.len()
        invariant
            0 <= k <= p@.len(),
            n == captures(p@.take(k as int), 0).len(),
            n <= k,
        decreases p@.len() - k,
    {
        proof {
            assert(p@.take(k + 1).drop_last() =~= p@.take(k as int));
        }
        match p[k] {
            Atom::Save => n = n + 1,
            _ => {},
        }
        k = k + 1;
    }
    proof {
        assert(p@.take(k as int) =~= p@);
    }
    n
}

fn entry_slots_exist(e: &PatternEntry) -> (r: bool)
    ensures
        r == slots_exist(*e),
{
    if e.slot >= capture_count(&e.pattern) {
        return false;
    }
    match &e.derive {
        Some(d) => d.slot < capture_count(&d.pattern),
        None => true,
    }
}

/// Checks a module's registration before first use.
pub fn is_valid(m: &ModulePatterns) -> (r: bool)
    ensures
        r == entries_valid(m.entries@),
{
    let es = &m.entries;
    let mut i: usize = 0;
    while i < es.len()
        invariant
            es@ == m.entries@,
            0 <= i <= es@.len(),
            forall|a: int, b: int|
                0 <= a < i && 0 <= b < es@.len() && a != b ==> #[trigger] es@[a].name@ != #[trigger] es@[b].name@,
            forall|a: int| 0 <= a < i ==> slots_exist(#[trigger] es@[a]),
        decreases es@.len() - i,
    {
        if !entry_slots_exist(&es[i]) {
            proof {
                assert(!slots_exist(es@[i as int]));
            }
            return false;
        }
        let mut j: usize = i + 1;
        while j < es.len()
            invariant
                es@ == m.entries@,
                i < es@.len(),
                i + 1 <= j <= es@.len(),
                forall|b: int| i < b < j ==> es@[i as int].name@ != #[trigger] es@[b].name@,
            decreases es@.len() - j,
        {
            if es[i].name == es[j].name {
                proof {
                    assert(es@[i as int].name@ == es@[j as int].name@);
                }
                return false;
            }
            j = j + 1;
        }
        i = i + 1;
    }
    true
}

fn entry(name: &str, codes: &[u16], reading: Reading) -> (e: PatternEntry)
    ensures
        e.name@ == name@,
        e.pattern@ == codes@.map_values(|c: u16| atom_of_code(c)),
        e.slot == 0,
        e.reading == reading,
        e.derive.is_none(),
{
    PatternEntry { name: name.to_owned(), pattern: pattern_from_codes(codes), slot: 0, reading, derive: None }
}

fn entry_deriving(
    name: &str,
    codes: &[u16],
    reading: Reading,
    derived_name: &str,
    derived_codes: &[u16],
    derived_reading: Reading,
) -> (e: PatternEntry)
    ensures
        e.name@ == name@,
        e.pattern@ == codes@.map_values(|c: u16| atom_of_code(c)),
        e.slot == 0,
        e.reading == reading,
        e.derive.is_some(),
{
    let d = Derivation {
        name: derived_name.to_owned(),
        pattern: pattern_from_codes(derived_codes),
        slot: 0,
        reading: derived_reading,
    };
    PatternEntry { name: name.to_owned(), pattern: pattern_from_codes(codes), slot: 0, reading, derive: Some(d) }
}

/// Signatures of `client.dll`.
pub fn client_patterns() -> (r: ModulePatterns)
    ensures
        r.module@ == "client.dll"@,
        r.entries@.len() == 15,
{
    let mut entries: Vec<PatternEntry> = Vec::new();
    entries.push(entry_deriving(
        "dwCSGOInput",
        &[0x48, 0x89, 0x05, SAVE, SKIP4, 0x0f, 0x57, 0xc0, 0x0f, 0x11, 0x05],
        Reading::Relative(0),
        "dwViewAngles",
        &[0xf2, 0x42, 0x0f, 0x10, 0x84, 0x28, SAVE, SKIP4],
        Reading::U32,
    ));
    entries.push(entry(
        "dwEntityList",
        &[0x48, 0x89, 0x35, SAVE, SKIP4, 0x48, 0x85, 0xf6],
        Reading::Relative(0),
    ));
    entries.push(entry(
        "dwGameEntitySystem",
        &[0x48, 0x8b, 0x3d, SAVE, SKIP4, 0x48, 0x89, 0x3d],
        Reading::Relative(0),
    ));
    entries.push(entry(
        "dwGameEntitySystem_highestEntityIndex",
        &[0xff, 0x81, SAVE, SKIP4, 0x48, 0x85, 0xd2],
        Reading::U32,
    ));
    entries.push(entry(
        "dwGameRules",
        &[0x48, 0x89, 0x1d, SAVE, SKIP4, 0xff, 0x15, SKIP4, 0x84, 0xc0],
        Reading::Relative(0),
    ));
    entries.push(entry(
        "dwGlobalVars",
        &[0x48, 0x89, 0x15, SAVE, SKIP4, 0x48, 0x89, 0x42],
        Reading::Relative(0),
    ));
    entries.push(entry(
        "dwGlowManager",
        &[0x48, 0x8b, 0x05, SAVE, SKIP4, 0xc3, 0xcc, 0xcc, 0xcc, 0xcc, 0xcc, 0xcc, 0xcc, 0xcc, 0x8b,
          0x41],
        Reading::Relative(0),
    ));
    entries.push(entry(
        "dwLocalPlayerController",
        &[0x48, 0x8b, 0x05, SAVE, SKIP4, 0x41, 0x89, 0xbe],
        Reading::Relative(0),
    ));
    entries.push(entry(
        "dwPlantedC4",
        &[0x48, 0x8b, 0x15, SAVE, SKIP4, 0x41, 0xff, 0xc0],
        Reading::Relative(0),
    ));
    entries.push(entry_deriving(
        "dwPrediction",
        &[0x48, 0x8d, 0x05, SAVE, SKIP4, 0xc3, 0xcc, 0xcc, 0xcc, 0xcc, 0xcc, 0xcc, 0xcc, 0xcc, 0x40,
          0x53, 0x56, 0x41, 0x54],
        Reading::Relative(0),
        "dwLocalPlayerPawn",
        &[0x4c, 0x39, 0xb6, SAVE, SKIP4, 0x74, ANY, 0x44, 0x88, 0xbe],
        Reading::U32,
    ));
    entries.push(entry(
        "dwSensitivity",
        &[0x48, 0x8d, 0x0d, SAVE, SKIP4, 0x66, 0x0f, 0x6e, 0xcd],
        Reading::Relative(8),
    ));
    entries.push(entry(
        "dwSensitivity_sensitivity",
        &[0x48, 0x8d, 0x7e, SAVE, SKIP1, 0x48, 0x0f, 0xba, 0xe0, ANY, 0x72, ANY, 0x85, 0xd2, 0x49,
          0x0f, 0x4f, 0xff],
        Reading::U8,
    ));
    entries.push(entry(
        "dwViewMatrix",
        &[0x48, 0x8d, 0x0d, SAVE, SKIP4, 0x48, 0xc1, 0xe0, 0x06],
        Reading::Relative(0),
    ));
    entries.push(entry(
        "dwViewRender",
        &[0x48, 0x89, 0x05, SAVE, SKIP4, 0x48, 0x8b, 0xc8, 0x48, 0x85, 0xc0],
        Reading::Relative(0),
    ));
    entries.push(entry(
        "dwWeaponC4",
        &[0x48, 0x89, 0x05, SAVE, SKIP4, 0xf7, 0xc1, SKIP4, 0x74, ANY, 0x81, 0xe1, SKIP4, 0x89,
          0x0d, SKIP4, 0x8b, 0x05, SKIP4, 0x89, 0x1d, SKIP4, 0xeb, ANY, 0x48, 0x8b, 0x15, SKIP4,
          0x48, 0x8b, 0x5c, 0x24, ANY, 0xff, 0xc0, 0x89, 0x05, SKIP4, 0x48, 0x8b, 0xc6, 0x48, 0x89,
          0x34, 0xea, 0x80, 0xbe],
        Reading::Relative(0),
    ));
    ModulePatterns { module: "client.dll".to_owned(), entries }
}

/// Signatures of `engine2.dll`.
pub fn engine2_patterns() -> (r: ModulePatterns)
    ensures
        r.module@ == "engine2.dll"@,
        r.entries@.len() == 11,
{
    let mut entries: Vec<PatternEntry> = Vec::new();
    entries.push(entry(
        "dwBuildNumber",
        &[0x89, 0x05, SAVE, SKIP4, 0x48, 0x8d, 0x0d, SKIP4, 0xff, 0x15, SKIP4, 0x48, 0x8b, 0x0d],
        Reading::Relative(0),
    ));
    entries.push(entry(
        "dwNetworkGameClient",
        &[0x48, 0x89, 0x3d, SAVE, SKIP4, 0x48, 0x8d, 0x15],
        Reading::Relative(0),
    ));
    entries.push(entry(
        "dwNetworkGameClient_clientTickCount",
        &[0x8b, 0x81, SAVE, SKIP4, 0xc3, 0xcc, 0xcc, 0xcc, 0xcc, 0xcc, 0xcc, 0xcc, 0xcc, 0xcc, 0x8b,
          0x81, SKIP4, 0xc3, 0xcc, 0xcc, 0xcc, 0xcc, 0xcc, 0xcc, 0xcc, 0xcc, 0xcc, 0x83, 0xb9],
        Reading::U32,
    ));
    entries.push(entry(
        "dwNetworkGameClient_deltaTick",
        &[0x4c, 0x8d, 0xb7, SAVE, SKIP4, 0x4c, 0x89, 0x7c, 0x24],
        Reading::U32,
    ));
    entries.push(entry(
        "dwNetworkGameClient_isBackgroundMap",
        &[0x0f, 0xb6, 0x81, SAVE, SKIP4, 0xc3, 0xcc, 0xcc, 0xcc, 0xcc, 0xcc, 0xcc, 0xcc, 0xcc, 0x0f,
          0xb6, 0x81, SKIP4, 0xc3, 0xcc, 0xcc, 0xcc, 0xcc, 0xcc, 0xcc, 0xcc, 0xcc, 0x40, 0x53],
        Reading::U32,
    ));
    entries.push(entry(
        "dwNetworkGameClient_localPlayer",
        &[0x42, 0x8b, 0x94, 0xd3, SAVE, SKIP4, 0x5b, 0x49, 0xff, 0xe3, 0x32, 0xc0, 0x5b, 0xc3, 0xcc,
          0xcc, 0xcc, 0xcc, 0xcc, 0xcc, 0xcc, 0xcc, 0x40, 0x53],
        Reading::U32,
    ));
    entries.push(entry(
        "dwNetworkGameClient_maxClients",
        &[0x8b, 0x81, SAVE, SKIP4, 0xc3, 0xcc, 0xcc, 0xcc, 0xcc, 0xcc, 0xcc, 0xcc, 0xcc, 0xcc, 0x8b,
          0x81, SKIP4, 0xff, 0xc0],
        Reading::U32,
    ));
    entries.push(entry(
        "dwNetworkGameClient_serverTickCount",
        &[0x8b, 0x81, SAVE, SKIP4, 0xc3, 0xcc, 0xcc, 0xcc, 0xcc, 0xcc, 0xcc, 0xcc, 0xcc, 0xcc, 0x83,
          0xb9],
        Reading::U32,
    ));
    entries.push(entry(
        "dwNetworkGameClient_signOnState",
        &[0x44, 0x8b, 0x81, SAVE, SKIP4, 0x48, 0x8d, 0x0d],
        Reading::U32,
    ));
    entries.push(entry(
        "dwWindowHeight",
        &[0x8b, 0x05, SAVE, SKIP4, 0x89, 0x03],
        Reading::Relative(0),
    ));
    entries.push(entry(
        "dwWindowWidth",
        &[0x8b, 0x05, SAVE, SKIP4, 0x89, 0x07],
        Reading::Relative(0),
    ));
    ModulePatterns { module: "engine2.dll".to_owned(), entries }
}

/// Signatures of `inputsystem.dll`.
pub fn input_system_patterns() -> (r: ModulePatterns)
    ensures
        r.module@ == "inputsystem.dll"@,
        r.entries@.len() == 1,
{
    let mut entries: Vec<PatternEntry> = Vec::new();
    entries.push(entry(
        "dwInputSystem",
        &[0x48, 0x89, 0x05, SAVE, SKIP4, 0x33, 0xc0],
        Reading::Relative(0),
    ));
    ModulePatterns { module: "inputsystem.dll".to_owned(), entries }
}

/// Signatures of `matchmaking.dll`.
pub fn matchmaking_patterns() -> (r: ModulePatterns)
    ensures
        r.module@ == "matchmaking.dll"@,
        r.entries@.len() == 1,
{
    let mut entries: Vec<PatternEntry> = Vec::new();
    entries.push(entry(
        "dwGameTypes",
        &[0x48, 0x8d, 0x0d, SAVE, SKIP4, 0xff, 0x90],
        Reading::Relative(0),
    ));
    ModulePatterns { module: "matchmaking.dll".to_owned(), entries }
}

/// Signatures of `soundsystem.dll`.
pub fn soundsystem_patterns() -> (r: ModulePatterns)
    ensures
        r.module@ == "soundsystem.dll"@,
        r.entries@.len() == 2,
{
    let mut entries: Vec<PatternEntry> = Vec::new();
    entries.push(entry(
        "dwSoundSystem",
        &[0x48, 0x8d, 0x05, SAVE, SKIP4, 0xc3, 0xcc, 0xcc, 0xcc, 0xcc, 0xcc, 0xcc, 0xcc, 0xcc, 0x48,
          0x89, 0x15],
        Reading::Relative(0),
    ));
    entries.push(entry(
        "dwSoundSystem_engineViewData",
        &[0x0f, 0x11, 0x47, SAVE, SKIP1, 0x0f, 0x10, 0x4b, ANY, 0x0f, 0x11, 0x8f],
        Reading::U8,
    ));
    ModulePatterns { module: "soundsystem.dll".to_owned(), entries }
}
/// Every module the offsets are resolved for, in the order they are built.
pub fn targets() -> (r: Vec<ModulePatterns>)
    ensures
        r@.len() == 5,
        r@[0].module@ == "client.dll"@,
        r@[1].module@ == "engine2.dll"@,
        r@[2].module@ == "inputsystem.dll"@,
        r@[3].module@ == "matchmaking.dll"@,
        r@[4].module@ == "soundsystem.dll"@,
{
    let mut r: Vec<ModulePatterns> = Vec::new();
    r.push(client_patterns());
    r.push(engine2_patterns());
    r.push(input_system_patterns());
    r.push(matchmaking_patterns());
    r.push(soundsystem_patterns());
    r
}

} // verus!
