//! Recognizing ZIP archives and choosing the ROM inside one: the entries
//! whose (lower-cased) names end in a known ROM extension are candidates,
//! and the largest of them is extracted.
use vstd::prelude::*;
use crate::text::{chars_of, concat_str, seq_ends_with, string_from_chars};

verus! {

/// Number of known ROM file extensions.
pub const ROM_EXTENSION_COUNT: usize = 16;

/// The ROM file extensions looked for inside an archive.
pub open spec fn rom_extensions() -> Seq<Seq<char>> {
    seq![
        ".nes"@, // NES
        ".sfc"@, ".smc"@, // SNES
        ".md"@, ".smd"@, ".gen"@, // Genesis/Mega Drive
        ".gb"@, ".gbc"@, // Game Boy / Color
        ".gba"@, // GBA
        ".n64"@, ".z64"@, ".v64"@, // N64
        ".cue"@, ".iso"@, ".chd"@, // Sega CD
        ".pce"@, // TurboGrafx-16/PC Engine
    ]
}

/// Known ROM extension number `i`.
pub fn rom_extension(i: usize) -> (e: &'static str)
    requires
        i < ROM_EXTENSION_COUNT,
    ensures
        e@ == rom_extensions()[i as int],
{
    match i {
        0 => ".nes",
        1 => ".sfc",
        2 => ".smc",
        3 => ".md",
        4 => ".smd",
        5 => ".gen",
        6 => ".gb",
        7 => ".gbc",
        8 => ".gba",
        9 => ".n64",
        10 => ".z64",
        11 => ".v64",
        12 => ".cue",
        13 => ".iso",
        14 => ".chd",
        _ => ".pce",
    }
}

/// Whether a (lower-cased) name ends in a known ROM extension.
pub open spec fn has_rom_extension(name: Seq<char>) -> bool {
    exists|k: int| 0 <= k < rom_extensions().len() && seq_ends_with(name, #[trigger] rom_extensions()[k])
}

/// Whether `s` ends with `suffix`.
fn chars_end_with(s: &Vec<char>, suffix: &str) -> (b: bool)
    ensures
        b == seq_ends_with(s@, suffix@),
{
    let t = chars_of(suffix);
    if t.len() > s.len() {
        return false;
    }
    let off = s.len() - t.len();
    let mut i: usize = 0;
    while i < t.len()
        invariant
            t@ == suffix@,
            t.len() <= s.len(),
            off == s.len() - t.len(),
            0 <= i <= t.len(),
            forall|j: int| 0 <= j < i ==> s@[off + j] == t@[j],
        decreases t.len() - i,
    {
        if s[off + i] != t[i] {
            assert(s@.subrange(off as int, s@.len() as int)[i as int] != t@[i as int]);
            return false;
        }
        i = i + 1;
    }
    assert(s@.subrange(off as int, s@.len() as int) =~= t@);
    true
}

/// Whether a lower-cased entry name ends in a known ROM extension.
pub fn is_rom_name(name: &Vec<char>) -> (b: bool)
    ensures
        b == has_rom_extension(name@),
{
    let mut k: usize = 0;
    while k < ROM_EXTENSION_COUNT
        invariant
            0 <= k <= ROM_EXTENSION_COUNT,
            rom_extensions().len() == ROM_EXTENSION_COUNT,
            forall|j: int| 0 <= j < k ==> !seq_ends_with(name@, #[trigger] rom_extensions()[j]),
        decreases ROM_EXTENSION_COUNT - k,
    {
        if chars_end_with(name, rom_extension(k)) {
            return true;
        }
        k = k + 1;
    }
    false
}

/// The text in lower case, as `str::to_lowercase` maps it (full Unicode
/// case mapping).
pub uninterp spec fn lowercase(s: Seq<char>) -> Seq<char>;

/// `str::to_lowercase`. Claimed: the result is `lowercase` of the text.
#[verifier::external_body]
fn to_lower(s: &str) -> (r: String)
    ensures
        r@ == lowercase(s@),
{
    s.to_lowercase()
}

/// `s` split at its last `c`: the part before and the part after (none
/// without a `c`).
pub open spec fn split_last(s: Seq<char>, c: char) -> Option<(Seq<char>, Seq<char>)>
    decreases s.len(),
{
    if s.len() == 0 {
        None
    } else if s.last() == c {
        Some((s.drop_last(), Seq::empty()))
    } else {
        match split_last(s.drop_last(), c) {
            Some((b, a)) => Some((b, a.push(s.last()))),
            None => None,
        }
    }
}

/// With `i` the last position of `c` in `s` the split is at `i`; with no
/// `c` (`i == -1`) there is none.
proof fn lemma_split_last(s: Seq<char>, c: char, i: int)
    requires
        -1 <= i < s.len(),
        i >= 0 ==> s[i] == c,
        forall|j: int| i < j < s.len() ==> s[j] != c,
    ensures
        if i >= 0 {
            split_last(s, c) == Some((s.subrange(0, i), s.subrange(i + 1, s.len() as int)))
        } else {
            split_last(s, c) is None
        },
    decreases s.len(),
{
    if s.len() > 0 {
        if i == s.len() - 1 {
            assert(s.drop_last() =~= s.subrange(0, i));
            assert(s.subrange(i + 1, s.len() as int) =~= Seq::<char>::empty());
        } else {
            lemma_split_last(s.drop_last(), c, i);
            if i >= 0 {
                assert(s.drop_last().subrange(0, i) =~= s.subrange(0, i));
                assert(s.drop_last().subrange(i + 1, s.len() - 1).push(s.last()) =~= s.subrange(
                    i + 1,
                    s.len() as int,
                ));
            }
        }
    }
}

/// The last position of `c` in `s`, with the split it gives.
fn last_index(s: &Vec<char>, c: char) -> (r: Option<usize>)
    ensures
        match r {
            Some(i) => i < s@.len() && split_last(s@, c) == Some(
                (s@.subrange(0, i as int), s@.subrange(i + 1, s@.len() as int)),
            ),
            None => split_last(s@, c) is None,
        },
{
    let mut k = s.len();
    while k > 0
        invariant
            k <= s@.len(),
            forall|j: int| k <= j < s@.len() ==> s@[j] != c,
        decreases k,
    {
        if s[k - 1] == c {
            proof {
                lemma_split_last(s@, c, k - 1);
            }
            return Some(k - 1);
        }
        k = k - 1;
    }
    proof {
        lemma_split_last(s@, c, -1);
    }
    None
}

/// The characters of `v` from `start` on.
fn tail_from(v: &Vec<char>, start: usize) -> (r: Vec<char>)
    requires
        start <= v@.len(),
    ensures
        r@ == v@.subrange(start as int, v@.len() as int),
{
    let mut r: Vec<char> = Vec::new();
    let mut k = start;
    while k < v.len()
        invariant
            start <= k <= v@.len(),
            r@ == v@.subrange(start as int, k as int),
        decreases v@.len() - k,
    {
        r.push(v[k]);
        k = k + 1;
        assert(r@ =~= v@.subrange(start as int, k as int));
    }
    r
}

/// The characters of `v` before `end`.
fn head_to(v: &Vec<char>, end: usize) -> (r: Vec<char>)
    requires
        end <= v@.len(),
    ensures
        r@ == v@.subrange(0, end as int),
{
    let mut r: Vec<char> = Vec::new();
    let mut k: usize = 0;
    while k < end
        invariant
            k <= end <= v@.len(),
            r@ == v@.subrange(0, k as int),
        decreases end - k,
    {
        r.push(v[k]);
        k = k + 1;
        assert(r@ =~= v@.subrange(0, k as int));
    }
    r
}

/// The file name of a Unix path, as `Path::file_name` reads it: trailing
/// `/` and `/.` are dropped (a `.` component means nothing there), then the
/// text after the last `/` is the name; none for an empty path, `.`, a
/// root, or a last component `..`.
pub open spec fn path_file_name(p: Seq<char>) -> Option<Seq<char>>
    decreases p.len(),
{
    if p.len() == 0 {
        None
    } else if p.last() == '/' {
        path_file_name(p.drop_last())
    } else if p.last() == '.' && p.len() >= 2 && p[p.len() - 2] == '/' {
        path_file_name(p.drop_last())
    } else if p == seq!['.'] {
        None
    } else {
        let part = match split_last(p, '/') {
            Some((_, a)) => a,
            None => p,
        };
        if part == seq!['.', '.'] {
            None
        } else {
            Some(part)
        }
    }
}

/// A file name without its extension: the part before its last `.`, unless
/// there is no `.` or the only one starts the name.
pub open spec fn name_stem(n: Seq<char>) -> Seq<char> {
    match split_last(n, '.') {
        Some((b, _)) => if b.len() == 0 {
            n
        } else {
            b
        },
        None => n,
    }
}

/// A file name's extension: the part after its last `.`, unless there is no
/// `.` or the only one starts the name.
pub open spec fn name_extension(n: Seq<char>) -> Option<Seq<char>> {
    match split_last(n, '.') {
        Some((b, a)) => if b.len() == 0 {
            None
        } else {
            Some(a)
        },
        None => None,
    }
}

/// The extension of a path, as `Path::extension` reads it.
pub open spec fn path_extension(path: Seq<char>) -> Option<Seq<char>> {
    match path_file_name(path) {
        Some(n) => name_extension(n),
        None => None,
    }
}

/// The file name of a path without its extension, as `Path::file_stem`
/// reads it.
pub open spec fn path_file_stem(path: Seq<char>) -> Option<Seq<char>> {
    match path_file_name(path) {
        Some(n) => Some(name_stem(n)),
        None => None,
    }
}

/// The file name of a path (see `path_file_name`).
fn file_name_of(path: &str) -> (r: Option<Vec<char>>)
    ensures
        match r {
            Some(v) => path_file_name(path@) == Some(v@),
            None => path_file_name(path@) is None,
        },
{
    let mut p = chars_of(path);
    while p.len() > 0 && (p[p.len() - 1] == '/' || (p[p.len() - 1] == '.' && p.len() >= 2 && p[p.len() - 2]
        == '/'))
        invariant
            path_file_name(p@) == path_file_name(path@),
        decreases p@.len(),
    {
        let ghost before = p@;
        p.pop();
        assert(p@ =~= before.drop_last());
    }
    if p.len() == 0 {
        return None;
    }
    if p.len() == 1 && p[0] == '.' {
        assert(p@ =~= seq!['.']);
        return None;
    }
    assert(p@ != seq!['.']);
    let part = match last_index(&p, '/') {
        Some(i) => tail_from(&p, i + 1),
        None => tail_from(&p, 0),
    };
    proof {
        assert(p@.subrange(0, p@.len() as int) =~= p@);
    }
    if part.len() == 2 && part[0] == '.' && part[1] == '.' {
        assert(part@ =~= seq!['.', '.']);
        return None;
    }
    assert(part@ != seq!['.', '.']);
    Some(part)
}

/// The extension of a path (see `path_extension`).
fn extension_of(path: &str) -> (r: Option<String>)
    ensures
        match r {
            Some(e) => path_extension(path@) == Some(e@),
            None => path_extension(path@) is None,
        },
{
    match file_name_of(path) {
        Some(n) => match last_index(&n, '.') {
            Some(i) => if i == 0 || i >= n.len() {
                None
            } else {
                Some(string_from_chars(tail_from(&n, i + 1)))
            },
            None => None,
        },
        None => None,
    }
}

/// The file name of a path without its extension (see `path_file_stem`).
fn file_stem_of(path: &str) -> (r: Option<String>)
    ensures
        match r {
            Some(e) => path_file_stem(path@) == Some(e@),
            None => path_file_stem(path@) is None,
        },
{
    match file_name_of(path) {
        Some(n) => match last_index(&n, '.') {
            Some(i) => if i == 0 {
                Some(string_from_chars(n))
            } else {
                Some(string_from_chars(head_to(&n, i)))
            },
            None => Some(string_from_chars(n)),
        },
        None => None,
    }
}

/// Whether bytes start with the ZIP signature `PK` (and hold at least four
/// bytes).
pub open spec fn zip_magic(data: Seq<u8>) -> bool {
    data.len() >= 4 && data[0] == 0x50u8 && data[1] == 0x4Bu8
}

/// Whether file contents start with the ZIP signature.
pub fn has_zip_magic(data: &[u8]) -> (b: bool)
    ensures
        b == zip_magic(data@),
{
    data.len() >= 4 && data[0] == 0x50u8 && data[1] == 0x4Bu8
}

/// Whether a path names a ZIP archive: its extension is `zip` in any case,
/// or else its contents (when they could be read) start with `PK`.
pub open spec fn zip_path(path: Seq<char>, contents: Option<Seq<u8>>) -> bool {
    (path_extension(path) matches Some(e) && lowercase(e) == "zip"@) || (contents matches Some(d)
        && zip_magic(d))
}

/// Whether the file at `path` is a ZIP archive, by extension or, failing
/// that, by the signature of its contents (`None` where the file could
/// not be read).
pub fn is_zip(path: &str, contents: Option<&[u8]>) -> (b: bool)
    ensures
        b == zip_path(path@, match contents {
            Some(d) => Some(d@),
            None => None,
        }),
{
    if let Some(ext) = extension_of(path) {
        let lower = to_lower(ext.as_str());
        if crate::text::str_eq(lower.as_str(), "zip") {
            return true;
        }
    }
    match contents {
        Some(d) => has_zip_magic(d),
        None => false,
    }
}

/// A human-readable ROM name: the file name without its extension, or
/// `Game` when the path has none.
pub fn get_zip_rom_name(rom_path: &str) -> (name: String)
    ensures
        name@ == match path_file_stem(rom_path@) {
            Some(s) => s,
            None => "Game"@,
        },
{
    match file_stem_of(rom_path) {
        Some(s) => s,
        None => String::from_str("Game"),
    }
}

/// The stem and the extension a ROM extracted from an archive keeps in
/// its temporary file name: those of its name in the archive, else
/// `extracted_rom` and `rom`.
pub fn temp_rom_name_parts(filename: &str) -> (r: (String, String))
    ensures
        r.0@ == match path_file_stem(filename@) {
            Some(s) => s,
            None => "extracted_rom"@,
        },
        r.1@ == match path_extension(filename@) {
            Some(e) => e,
            None => "rom"@,
        },
{
    let stem = match file_stem_of(filename) {
        Some(s) => s,
        None => String::from_str("extracted_rom"),
    };
    let ext = match extension_of(filename) {
        Some(e) => e,
        None => String::from_str("rom"),
    };
    (stem, ext)
}

/// What the `zip` crate reads from archive bytes: the number of entries, or
/// the text of the error when the bytes are no archive it can read.
pub uninterp spec fn zip_entry_count(data: Seq<u8>) -> Result<nat, Seq<char>>;

/// `ZipArchive::new` over the bytes, then `len`. Claimed: the result is
/// `zip_entry_count` of the bytes (the error as its display text).
#[verifier::external_body]
fn open_zip(data: &[u8]) -> (r: Result<usize, String>)
    ensures
        match r {
            Ok(n) => zip_entry_count(data@) == Ok::<nat, Seq<char>>(n as nat),
            Err(e) => zip_entry_count(data@) == Err::<nat, Seq<char>>(e@),
        },
{
    match zip::ZipArchive::new(std::io::Cursor::new(data)) {
        Ok(a) => Ok(a.len()),
        Err(e) => Err(e.to_string()),
    }
}

/// The name and uncompressed size of entry `index` of an archive, as the
/// `zip` crate reads them; none where the archive, the entry or its name
/// cannot be read.
pub uninterp spec fn zip_entry_meta(data: Seq<u8>, index: nat) -> Option<(Seq<char>, u64)>;

/// `ZipArchive::new`, `by_index`, then the entry's `name` and `size`.
/// Claimed: the result is `zip_entry_meta` of the bytes and index.
#[verifier::external_body]
fn read_zip_entry_meta(data: &[u8], index: usize) -> (r: Option<(String, u64)>)
    ensures
        match r {
            Some(m) => zip_entry_meta(data@, index as nat) == Some((m.0@, m.1)),
            None => zip_entry_meta(data@, index as nat) is None,
        },
{
    let mut a = zip::ZipArchive::new(std::io::Cursor::new(data)).ok()?;
    let f = a.by_index(index).ok()?;
    let name = f.name().ok()?.into_owned();
    Some((name, f.size()))
}

/// Why an entry could not be extracted.
pub enum ZipEntryError {
    /// The archive or the entry could not be opened (the error's text).
    Open(String),
    /// The entry's data could not be read or decompressed (the error's text).
    Read(String),
}

/// The uncompressed contents of entry `index` as the `zip` crate extracts
/// them; on failure, whether it was opening (`true`) or reading (`false`)
/// that failed, and the error's text.
pub uninterp spec fn zip_entry_data(data: Seq<u8>, index: nat) -> Result<Seq<u8>, (bool, Seq<char>)>;

/// `ZipArchive::new`, `by_index`, then `read_to_end` of the entry.
/// Claimed: the result is `zip_entry_data` of the bytes and index.
#[verifier::external_body]
fn read_zip_entry(data: &[u8], index: usize) -> (r: Result<Vec<u8>, ZipEntryError>)
    ensures
        match r {
            Ok(v) => zip_entry_data(data@, index as nat) == Ok::<Seq<u8>, (bool, Seq<char>)>(v@),
            Err(ZipEntryError::Open(e)) => zip_entry_data(data@, index as nat) == Err::<Seq<u8>, (bool, Seq<char>)>((true, e@)),
            Err(ZipEntryError::Read(e)) => zip_entry_data(data@, index as nat) == Err::<Seq<u8>, (bool, Seq<char>)>((false, e@)),
        },
{
    let mut a = match zip::ZipArchive::new(std::io::Cursor::new(data)) {
        Ok(a) => a,
        Err(e) => return Err(ZipEntryError::Open(e.to_string())),
    };
    let mut f = match a.by_index(index) {
        Ok(f) => f,
        Err(e) => return Err(ZipEntryError::Open(e.to_string())),
    };
    let mut out: Vec<u8> = Vec::new();
    match std::io::Read::read_to_end(&mut f, &mut out) {
        Ok(_) => Ok(out),
        Err(e) => Err(ZipEntryError::Read(e.to_string())),
    }
}

/// Whether entry `i` is a ROM candidate: it can be read, is no directory
/// and its lower-cased name ends in a ROM extension.
pub open spec fn rom_candidate(data: Seq<u8>, i: nat) -> bool {
    zip_entry_meta(data, i) matches Some(m) && !seq_ends_with(lowercase(m.0), seq!['/'])
        && has_rom_extension(lowercase(m.0))
}

/// The uncompressed size of a readable entry.
pub open spec fn entry_size(data: Seq<u8>, i: nat) -> u64 {
    zip_entry_meta(data, i)->Some_0.1
}

/// Whether entry `idx` is the one chosen among the first `n` entries: a
/// candidate no other candidate outsizes, and the first such.
pub open spec fn chosen_rom(data: Seq<u8>, n: nat, idx: nat) -> bool {
    &&& idx < n
    &&& rom_candidate(data, idx)
    &&& forall|i: nat| i < n && rom_candidate(data, i) ==> entry_size(data, i) <= entry_size(data, idx)
    &&& forall|i: nat| i < idx && rom_candidate(data, i) ==> entry_size(data, i) < entry_size(data, idx)
}

/// At most one entry is chosen.
pub proof fn lemma_chosen_rom_unique(data: Seq<u8>, n: nat, a: nat, b: nat)
    requires
        chosen_rom(data, n, a),
        chosen_rom(data, n, b),
    ensures
        a == b,
{
    if a < b {
        assert(entry_size(data, a) < entry_size(data, b));
        assert(entry_size(data, a) >= entry_size(data, b));
    } else if b < a {
        assert(entry_size(data, b) < entry_size(data, a));
        assert(entry_size(data, b) >= entry_size(data, a));
    }
}

/// Find the ROM entry of an archive: among the entries whose lower-cased
/// names end in a ROM extension (directories and unreadable entries left
/// out), the largest, the first of equals. Returns its name and index;
/// `None` where there is no candidate; the archive's error text where the
/// bytes cannot be read as an archive.
pub fn find_rom_entry(data: &[u8]) -> (r: Result<Option<(String, usize)>, String>)
    ensures
        match r {
            Err(e) => zip_entry_count(data@) == Err::<nat, Seq<char>>(e@),
            Ok(None) => zip_entry_count(data@) is Ok && forall|i: nat|
                i < zip_entry_count(data@)->Ok_0 ==> !rom_candidate(data@, i),
            Ok(Some((name, idx))) => zip_entry_count(data@) is Ok && chosen_rom(
                data@,
                zip_entry_count(data@)->Ok_0,
                idx as nat,
            ) && name@ == zip_entry_meta(data@, idx as nat)->Some_0.0,
        },
{
    let n = match open_zip(data) {
        Ok(n) => n,
        Err(e) => return Err(e),
    };
    let ghost d = data@;
    let mut found: Option<(String, usize, u64)> = None;
    let mut i: usize = 0;
    while i < n
        invariant
            d == data@,
            zip_entry_count(d) == Ok::<nat, Seq<char>>(n as nat),
            0 <= i <= n,
            found is None ==> forall|j: nat| j < i ==> !rom_candidate(d, j),
            found matches Some((name, best, size)) ==> chosen_rom(d, i as nat, best as nat) && size
                == entry_size(d, best as nat) && name@ == zip_entry_meta(d, best as nat)->Some_0.0,
        decreases n - i,
    {
        let meta = read_zip_entry_meta(data, i);
        if let Some((name, size)) = meta {
            let lower = to_lower(name.as_str());
            let lc = chars_of(lower.as_str());
            let is_dir = chars_end_with(&lc, "/");
            proof {
                reveal_strlit("/");
                assert("/"@ =~= seq!['/']);
            }
            if !is_dir && is_rom_name(&lc) {
                assert(rom_candidate(d, i as nat));
                match found {
                    None => {
                        found = Some((name, i, size));
                    },
                    Some((bname, best, bsize)) => {
                        if size > bsize {
                            found = Some((name, i, size));
                        } else {
                            found = Some((bname, best, bsize));
                        }
                    },
                }
            } else {
                assert(!rom_candidate(d, i as nat));
            }
        } else {
            assert(!rom_candidate(d, i as nat));
        }
        i = i + 1;
    }
    match found {
        None => Ok(None),
        Some((name, best, _)) => Ok(Some((name, best))),
    }
}

/// What extracting the ROM of an archive gives: the chosen entry's contents
/// and name, or the error message.
pub open spec fn zip_extraction_ok(data: Seq<u8>, rom: Seq<u8>, name: Seq<char>) -> bool {
    &&& zip_magic(data)
    &&& zip_entry_count(data) is Ok
    &&& exists|idx: nat|
        {
            &&& #[trigger] chosen_rom(data, zip_entry_count(data)->Ok_0, idx)
            &&& name == zip_entry_meta(data, idx)->Some_0.0
            &&& zip_entry_data(data, idx) == Ok::<Seq<u8>, (bool, Seq<char>)>(rom)
        }
    &&& rom.len() > 0
}

/// The message of a failed extraction of the chosen entry: opening or
/// reading it failed, or it came out empty.
pub open spec fn entry_error_message(res: Result<Seq<u8>, (bool, Seq<char>)>, e: Seq<char>) -> bool {
    match res {
        Err((true, z)) => e == "Failed to read ROM entry: "@ + z,
        Err((false, z)) => e == "Failed to extract ROM data: "@ + z,
        Ok(v) => v.len() == 0 && e == "Extracted ROM file is empty"@,
    }
}

/// The message with which extracting the ROM of an archive fails.
pub open spec fn zip_extraction_error(data: Seq<u8>, e: Seq<char>) -> bool {
    if !zip_magic(data) {
        e == "Not a valid ZIP file"@
    } else {
        match zip_entry_count(data) {
            Err(z) => e == "Invalid ZIP archive: "@ + z,
            Ok(n) => if (forall|i: nat| i < n ==> !rom_candidate(data, i)) {
                e == "No ROM file found in ZIP archive"@
            } else {
                exists|idx: nat| #[trigger] chosen_rom(data, n, idx) && entry_error_message(zip_entry_data(data, idx), e)
            },
        }
    }
}

/// Extract the ROM of a ZIP archive held in memory: its contents and its
/// name inside the archive. Fails with `Not a valid ZIP file` without the
/// signature, `Invalid ZIP archive: ...` when the archive cannot be read,
/// `No ROM file found in ZIP archive` without a candidate, `Failed to read
/// ROM entry: ...` / `Failed to extract ROM data: ...` when the chosen
/// entry cannot be opened / read, and `Extracted ROM file is empty`.
pub fn extract_zip_to_memory(data: &[u8]) -> (r: Result<(Vec<u8>, String), String>)
    ensures
        match r {
            Ok((rom, name)) => zip_extraction_ok(data@, rom@, name@),
            Err(e) => zip_extraction_error(data@, e@),
        },
{
    if !has_zip_magic(data) {
        return Err(String::from_str("Not a valid ZIP file"));
    }
    match open_zip(data) {
        Ok(_) => {},
        Err(e) => return Err(concat_str("Invalid ZIP archive: ", e.as_str())),
    }
    let entry = match find_rom_entry(data) {
        Ok(x) => x,
        Err(e) => return Err(concat_str("Failed to scan ZIP: ", e.as_str())),
    };
    let (filename, idx) = match entry {
        Some(x) => x,
        None => return Err(String::from_str("No ROM file found in ZIP archive")),
    };
    let rom = match read_zip_entry(data, idx) {
        Ok(v) => v,
        Err(ZipEntryError::Open(e)) => return Err(concat_str("Failed to read ROM entry: ", e.as_str())),
        Err(ZipEntryError::Read(e)) => return Err(concat_str("Failed to extract ROM data: ", e.as_str())),
    };
    if rom.len() == 0 {
        return Err(String::from_str("Extracted ROM file is empty"));
    }
    Ok((rom, filename))
}

/// A name counts as a ROM exactly when it ends in one of the extensions
/// `.nes`, `.sfc`, `.smc`, `.md`, `.smd`, `.gen`, `.gb`, `.gbc`, `.gba`,
/// `.n64`, `.z64`, `.v64`, `.cue`, `.iso`, `.chd` or `.pce`.
pub proof fn rom_extensions_are_known_systems(name: Seq<char>)
    ensures
        has_rom_extension(name) <==> {
            ||| seq_ends_with(name, seq!['.', 'n', 'e', 's'])
            ||| seq_ends_with(name, seq!['.', 's', 'f', 'c'])
            ||| seq_ends_with(name, seq!['.', 's', 'm', 'c'])
            ||| seq_ends_with(name, seq!['.', 'm', 'd'])
            ||| seq_ends_with(name, seq!['.', 's', 'm', 'd'])
            ||| seq_ends_with(name, seq!['.', 'g', 'e', 'n'])
            ||| seq_ends_with(name, seq!['.', 'g', 'b'])
            ||| seq_ends_with(name, seq!['.', 'g', 'b', 'c'])
            ||| seq_ends_with(name, seq!['.', 'g', 'b', 'a'])
            ||| seq_ends_with(name, seq!['.', 'n', '6', '4'])
            ||| seq_ends_with(name, seq!['.', 'z', '6', '4'])
            ||| seq_ends_with(name, seq!['.', 'v', '6', '4'])
            ||| seq_ends_with(name, seq!['.', 'c', 'u', 'e'])
            ||| seq_ends_with(name, seq!['.', 'i', 's', 'o'])
            ||| seq_ends_with(name, seq!['.', 'c', 'h', 'd'])
            ||| seq_ends_with(name, seq!['.', 'p', 'c', 'e'])
        },
{
    reveal_strlit(".nes");
    reveal_strlit(".sfc");
    reveal_strlit(".smc");
    reveal_strlit(".md");
    reveal_strlit(".smd");
    reveal_strlit(".gen");
    reveal_strlit(".gb");
    reveal_strlit(".gbc");
    reveal_strlit(".gba");
    reveal_strlit(".n64");
    reveal_strlit(".z64");
    reveal_strlit(".v64");
    reveal_strlit(".cue");
    reveal_strlit(".iso");
    reveal_strlit(".chd");
    reveal_strlit(".pce");
    let exts = seq![
        seq!['.', 'n', 'e', 's'], seq!['.', 's', 'f', 'c'], seq!['.', 's', 'm', 'c'], seq!['.', 'm', 'd'],
        seq!['.', 's', 'm', 'd'], seq!['.', 'g', 'e', 'n'], seq!['.', 'g', 'b'], seq!['.', 'g', 'b', 'c'],
        seq!['.', 'g', 'b', 'a'], seq!['.', 'n', '6', '4'], seq!['.', 'z', '6', '4'], seq!['.', 'v', '6', '4'],
        seq!['.', 'c', 'u', 'e'], seq!['.', 'i', 's', 'o'], seq!['.', 'c', 'h', 'd'], seq!['.', 'p', 'c', 'e'],
    ];
    assert(rom_extensions().len() == 16);
    assert forall|k: int| 0 <= k < 16 implies #[trigger] rom_extensions()[k] =~= exts[k] by {}
}

/// An archive entry that can be read, is no directory and whose lower-cased
/// name ends in a known ROM extension is a candidate; when no other entry
/// among the first `n` is one, it is the entry chosen.
pub proof fn lone_rom_entry_is_chosen(data: Seq<u8>, n: nat, i: nat)
    requires
        i < n,
        zip_entry_meta(data, i) is Some,
        !seq_ends_with(lowercase(zip_entry_meta(data, i)->Some_0.0), seq!['/']),
        has_rom_extension(lowercase(zip_entry_meta(data, i)->Some_0.0)),
        forall|j: nat| j < n && j != i ==> !rom_candidate(data, j),
    ensures
        rom_candidate(data, i),
        chosen_rom(data, n, i),
        forall|j: nat| chosen_rom(data, n, j) ==> j == i,
{
}

/// The chosen entry is the largest candidate, the first of equals: no
/// candidate among the first `n` entries is larger, and every candidate
/// before it is smaller.
pub proof fn chosen_rom_is_largest(data: Seq<u8>, n: nat, idx: nat, j: nat)
    requires
        chosen_rom(data, n, idx),
        j < n,
        rom_candidate(data, j),
    ensures
        zip_entry_meta(data, j)->Some_0.1 <= zip_entry_meta(data, idx)->Some_0.1,
        j < idx ==> zip_entry_meta(data, j)->Some_0.1 < zip_entry_meta(data, idx)->Some_0.1,
{
}

} // verus!
