//! The GNU build ID of an executable.
//!
//! The ELF format itself is read by the `elf` crate; this module decides which
//! section and which note hold the build ID and renders it in hexadecimal.
use elf::endian::AnyEndian;
use elf::note::{Note, NoteGnuBuildId, NoteIterator};
use elf::ElfBytes;
use vstd::prelude::*;

use crate::number;
use crate::text;

verus! {

/// The section that carries the GNU build ID note.
pub const BUILD_ID_SECTION: &'static str = ".note.gnu.build-id";

/// The type of a section that holds notes.
pub const SHT_NOTE: u32 = 7;

/// Largest executable, in bytes, that is searched for a build ID: 64 MB.
pub const MAX_EXE_SIZE: u64 = 64 * 1024 * 1024;

/// `elf::ParseError`, carried through without looking inside.
#[verifier::external_type_specification]
#[verifier::external_body]
pub struct ExElfParseError(elf::ParseError);

/// An ELF object as the `elf` crate holds it: `elf::ElfBytes` over a byte slice, which is
/// generic over a trait of that crate and therefore kept inside.
#[verifier::external_body]
pub struct ElfFile<'a> {
    inner: ElfBytes<'a, AnyEndian>,
}

/// The notes of one section that have not been handed out yet: `elf::note::NoteIterator`,
/// which is generic over a trait of the `elf` crate and therefore kept inside.
#[verifier::external_body]
pub struct ElfNotes<'a> {
    inner: NoteIterator<'a, AnyEndian>,
}

/// A section header as `elf::section::SectionHeader` has it.
#[derive(Clone, Copy, Debug, PartialEq, Eq)]
pub struct SectionHeader {
    pub sh_name: u32,
    pub sh_type: u32,
    pub sh_flags: u64,
    pub sh_addr: u64,
    pub sh_offset: u64,
    pub sh_size: u64,
    pub sh_link: u32,
    pub sh_info: u32,
    pub sh_addralign: u64,
    pub sh_entsize: u64,
}

/// One note of a note section: the contents of a GNU build ID note, or a note of another kind.
#[derive(Clone, Copy, Debug)]
pub enum ElfNote<'a> {
    GnuAbiTag,
    GnuBuildId(&'a [u8]),
    Unknown,
}

impl<'a> ElfNote<'a> {
    /// The build ID that the note holds, if it is a build ID note.
    pub open spec fn build_id(self) -> Option<Seq<u8>> {
        match self {
            ElfNote::GnuBuildId(id) => Some(id@),
            _ => None,
        }
    }
}

/// The bytes that an ELF object was opened on.
pub uninterp spec fn elf_contents(file: ElfFile<'_>) -> Seq<u8>;

/// The notes that an iterator still hands out before it first returns nothing,
/// each as the build ID that it holds, or `None` for a note of another kind.
pub uninterp spec fn notes_left(notes: ElfNotes<'_>) -> Seq<Option<Seq<u8>>>;

/// Whether `elf::ElfBytes::minimal_parse` accepts these bytes.
pub uninterp spec fn elf_parses(data: Seq<u8>) -> bool;

/// What `elf::ElfBytes::section_header_by_name` returns for an object over these bytes;
/// `None` stands for a parse error.
pub uninterp spec fn elf_section(data: Seq<u8>, name: Seq<char>) -> Option<Option<SectionHeader>>;

/// The notes that `elf::ElfBytes::section_data_as_notes` gives for a section of an object
/// over these bytes, with the section's alignment cut to the machine's word; `None` stands
/// for a parse error.
pub uninterp spec fn elf_notes(
    data: Seq<u8>,
    sh_type: u32,
    sh_flags: u64,
    sh_offset: u64,
    sh_size: u64,
    align: usize,
) -> Option<Seq<Option<Seq<u8>>>>;

/// `elf::ElfBytes::minimal_parse`: opens an ELF object on a byte slice. Whether it succeeds
/// depends on the bytes alone, and the object keeps the slice that it was opened on.
#[verifier::external_body]
fn minimal_parse(data: &[u8]) -> (r: Result<ElfFile<'_>, elf::ParseError>)
    ensures
        r is Ok <==> elf_parses(data@),
        r matches Ok(file) ==> elf_contents(file) == data@,
{
    Ok(ElfFile { inner: ElfBytes::<AnyEndian>::minimal_parse(data)? })
}

/// `elf::ElfBytes::section_header_by_name`: the first section header with the given name.
/// The result depends on the object's bytes and on the name alone.
#[verifier::external_body]
fn section_header_by_name(file: &ElfFile<'_>, name: &str) -> (r: Result<
    Option<SectionHeader>,
    elf::ParseError,
>)
    ensures
        match r {
            Ok(found) => elf_section(elf_contents(*file), name@) == Some(found),
            Err(_) => elf_section(elf_contents(*file), name@) is None,
        },
{
    let found = file.inner.section_header_by_name(name)?;
    Ok(found.map(|h| SectionHeader {
        sh_name: h.sh_name, sh_type: h.sh_type, sh_flags: h.sh_flags, sh_addr: h.sh_addr,
        sh_offset: h.sh_offset, sh_size: h.sh_size, sh_link: h.sh_link, sh_info: h.sh_info,
        sh_addralign: h.sh_addralign, sh_entsize: h.sh_entsize,
    }))
}

/// `elf::ElfBytes::section_data_as_notes`: the notes of a section. The result depends on the
/// object's bytes and on the section's type, flags, place, size and alignment alone. A section
/// of another type is an error.
#[verifier::external_body]
fn section_data_as_notes<'a>(file: &ElfFile<'a>, h: &SectionHeader) -> (r: Result<
    ElfNotes<'a>,
    elf::ParseError,
>)
    ensures
        ({
            let named = elf_notes(
                elf_contents(*file),
                h.sh_type,
                h.sh_flags,
                h.sh_offset,
                h.sh_size,
                h.sh_addralign as usize,
            );
            match r {
                Ok(notes) => named == Some(notes_left(notes)),
                Err(_) => named is None,
            }
        }),
        h.sh_type != SHT_NOTE ==> r is Err,
{
    let shdr = elf::section::SectionHeader {
        sh_name: h.sh_name, sh_type: h.sh_type, sh_flags: h.sh_flags, sh_addr: h.sh_addr,
        sh_offset: h.sh_offset, sh_size: h.sh_size, sh_link: h.sh_link, sh_info: h.sh_info,
        sh_addralign: h.sh_addralign, sh_entsize: h.sh_entsize,
    };
    Ok(ElfNotes { inner: file.inner.section_data_as_notes(&shdr)? })
}

/// `elf::note::NoteIterator::next`: hands out the notes that are left in order, then nothing.
#[verifier::external_body]
fn next_note<'a>(notes: &mut ElfNotes<'a>) -> (r: Option<ElfNote<'a>>)
    ensures
        notes_left(*old(notes)).len() == 0 ==> r is None,
        notes_left(*old(notes)).len() > 0 ==> {
            &&& r matches Some(note) && note.build_id() == notes_left(*old(notes))[0]
            &&& notes_left(*final(notes)) == notes_left(*old(notes)).drop_first()
        },
{
    match notes.inner.next()? {
        Note::GnuAbiTag(_) => Some(ElfNote::GnuAbiTag),
        Note::GnuBuildId(NoteGnuBuildId(id)) => Some(ElfNote::GnuBuildId(id)),
        Note::Unknown(_) => Some(ElfNote::Unknown),
    }
}

/// Takes the first build ID note among the notes that are left, if there is one. No other
/// note is kept: a section can hold millions of them.
fn take_build_id_note<'a>(notes: ElfNotes<'a>) -> (v: Vec<ElfNote<'a>>)
    ensures
        v@.len() <= 1,
        first_build_id(note_ids(v@)) == first_build_id(notes_left(notes)),
{
    let mut rest = notes;
    let mut v: Vec<ElfNote<'a>> = Vec::new();
    loop
        invariant
            v@.len() == 0,
            first_build_id(notes_left(notes)) == first_build_id(notes_left(rest)),
        decreases notes_left(rest).len(),
    {
        match next_note(&mut rest) {
            Some(ElfNote::GnuBuildId(id)) => {
                v.push(ElfNote::GnuBuildId(id));
                return v;
            },
            Some(_) => {},
            None => return v,
        }
    }
}

/// The build IDs that the notes hold, position by position.
pub open spec fn note_ids(notes: Seq<ElfNote<'_>>) -> Seq<Option<Seq<u8>>> {
    notes.map_values(|note: ElfNote| note.build_id())
}

/// The first build ID among the notes.
pub open spec fn first_build_id(ids: Seq<Option<Seq<u8>>>) -> Option<Seq<u8>>
    decreases ids.len(),
{
    if ids.len() == 0 {
        None
    } else if ids[0] is Some {
        ids[0]
    } else {
        first_build_id(ids.drop_first())
    }
}

/// Two lower-case hexadecimal digits per byte, in order.
pub open spec fn hex(bytes: Seq<u8>) -> Seq<char>
    decreases bytes.len(),
{
    if bytes.len() == 0 {
        Seq::empty()
    } else {
        hex(bytes.drop_last()) + hex_byte(bytes.last())
    }
}

/// The two hexadecimal digits of one byte, the high one first.
pub open spec fn hex_byte(b: u8) -> Seq<char> {
    seq![number::digit_char((b / 16) as nat), number::digit_char((b % 16) as nat)]
}

/// The text of a build ID; an empty one is no build ID.
pub open spec fn build_id_text(id: Option<Seq<u8>>) -> Option<Seq<char>> {
    match id {
        Some(bytes) if bytes.len() > 0 => Some(hex(bytes)),
        _ => None,
    }
}

/// The build ID of an executable with these bytes: the first build ID note of the section
/// `.note.gnu.build-id`, or nothing where the ELF reader fails on the way to it.
pub open spec fn build_id_of(data: Seq<u8>) -> Option<Seq<char>> {
    if !elf_parses(data) {
        None
    } else {
        match elf_section(data, BUILD_ID_SECTION@) {
            Some(Some(h)) => match elf_notes(
                data,
                h.sh_type,
                h.sh_flags,
                h.sh_offset,
                h.sh_size,
                h.sh_addralign as usize,
            ) {
                Some(ids) => build_id_text(first_build_id(ids)),
                None => None,
            },
            _ => None,
        }
    }
}

/// A build ID in text form: one pair of hexadecimal digits or more.
pub open spec fn well_formed_build_id(id: Seq<char>) -> bool {
    &&& id.len() > 0
    &&& id.len() % 2 == 0
    &&& forall|i: int| 0 <= i < id.len() ==> is_hex_digit(#[trigger] id[i])
}

/// The ASCII hexadecimal digits.
pub open spec fn is_hex_digit(c: char) -> bool {
    '0' <= c <= '9' || 'a' <= c <= 'f' || 'A' <= c <= 'F'
}

/// Renders bytes in hexadecimal.
pub fn to_hex(bytes: &[u8]) -> (s: String)
    ensures
        s@ == hex(bytes@),
{
    let mut s = String::new();
    for i in 0..bytes.len()
        invariant
            s@ == hex(bytes@.take(i as int)),
    {
        let b = bytes[i];
        s.push(number::digit(b / 16));
        s.push(number::digit(b % 16));
        assert(bytes@.take(i + 1).drop_last() == bytes@.take(i as int));
    }
    assert(bytes@.take(bytes@.len() as int) == bytes@);
    s
}

/// The build ID that the first build ID note among `notes` holds, in hexadecimal.
pub fn build_id_from_notes(notes: &[ElfNote<'_>]) -> (r: Option<String>)
    ensures
        text::text_of(r) == build_id_text(first_build_id(note_ids(notes@))),
        forall|k: int|
            0 <= k < notes@.len() && (#[trigger] notes@[k] matches ElfNote::GnuBuildId(id)
                && id@.len() > 0) && (forall|i: int|
                0 <= i < k ==> !(#[trigger] notes@[i] is GnuBuildId)) ==> r is Some && {
                let id = notes@[k]->GnuBuildId_0@;
                &&& r->0@.len() == 2 * id.len()
                &&& forall|i: int|
                    0 <= i < id.len() ==> r->0@[2 * i] == "0123456789abcdef"@[#[trigger] id[i]
                        as int / 16] && r->0@[2 * i + 1] == "0123456789abcdef"@[id[i] as int % 16]
            },
{
    proof {
        lemma_notes_told(notes@);
    }
    assert(note_ids(notes@).skip(0) == note_ids(notes@));
    for i in 0..notes.len()
        invariant
            first_build_id(note_ids(notes@)) == first_build_id(note_ids(notes@).skip(i as int)),
    {
        assert(note_ids(notes@).skip(i as int).drop_first() == note_ids(notes@).skip(i + 1));
        if let ElfNote::GnuBuildId(id) = notes[i] {
            proof {
                lemma_notes_told(notes@);
            }
            return if id.len() == 0 {
                None
            } else {
                Some(to_hex(id))
            };
        }
    }
    None
}

/// Extracts the build ID from the bytes of an executable.
///
/// The bytes may come from anywhere: whatever they hold, the result is nothing or a
/// well-formed build ID.
pub fn build_id_from_bytes(data: &[u8]) -> (r: Option<String>)
    ensures
        text::text_of(r) == build_id_of(data@),
        r matches Some(id) ==> well_formed_build_id(id@),
{
    proof {
        law_build_id_well_formed(data@);
    }
    let file = match minimal_parse(data) {
        Ok(file) => file,
        Err(_) => return None,
    };
    let header = match section_header_by_name(&file, BUILD_ID_SECTION) {
        Ok(Some(header)) => header,
        _ => return None,
    };
    match section_data_as_notes(&file, &header) {
        Ok(notes) => build_id_from_notes(take_build_id_note(notes).as_slice()),
        Err(_) => None,
    }
}

/// Extracts the build ID of an executable from what could be read of its file.
///
/// `contents` is `None` where the file could not be read. A file of more than
/// [`MAX_EXE_SIZE`] bytes is not searched.
pub fn parse_executable_build_id(contents: Option<&[u8]>) -> (r: Option<String>)
    ensures
        text::text_of(r) == executable_build_id(
            match contents {
                Some(data) => Some(data@),
                None => None,
            },
        ),
        r matches Some(id) ==> well_formed_build_id(id@),
{
    match contents {
        Some(data) if data.len() as u64 <= MAX_EXE_SIZE => build_id_from_bytes(data),
        _ => None,
    }
}

/// Whether a file that is to be searched for a build ID is no ELF object: worth a warning.
pub fn is_malformed_executable(contents: Option<&[u8]>) -> (r: bool)
    ensures
        r == match contents {
            Some(data) => data@.len() <= MAX_EXE_SIZE && !elf_parses(data@),
            None => false,
        },
{
    match contents {
        Some(data) if data.len() as u64 <= MAX_EXE_SIZE => minimal_parse(data).is_err(),
        _ => false,
    }
}

/// The build ID of an executable file, given its bytes where they could be read.
pub open spec fn executable_build_id(contents: Option<Seq<u8>>) -> Option<Seq<char>> {
    match contents {
        Some(data) if data.len() <= MAX_EXE_SIZE => build_id_of(data),
        _ => None,
    }
}

proof fn lemma_hex(bytes: Seq<u8>)
    ensures
        hex(bytes).len() == 2 * bytes.len(),
        forall|i: int| 0 <= i < hex(bytes).len() ==> is_hex_digit(#[trigger] hex(bytes)[i]),
    decreases bytes.len(),
{
    if bytes.len() > 0 {
        lemma_hex(bytes.drop_last());
    }
}

/// Whatever bytes an executable has, it has no build ID or a well-formed one: never an empty
/// one, never half a byte, never a character that is no hexadecimal digit.
pub proof fn law_build_id_well_formed(data: Seq<u8>)
    ensures
        build_id_of(data) matches Some(id) ==> well_formed_build_id(id),
{
    if build_id_of(data) is Some {
        let h = elf_section(data, BUILD_ID_SECTION@)->0->0;
        let ids = elf_notes(
            data,
            h.sh_type,
            h.sh_flags,
            h.sh_offset,
            h.sh_size,
            h.sh_addralign as usize,
        )->0;
        lemma_hex(first_build_id(ids)->0);
    }
}

/// Two build IDs with the same text are the same build ID.
pub proof fn law_hex_injective(a: Seq<u8>, b: Seq<u8>)
    requires
        hex(a) == hex(b),
    ensures
        a == b,
    decreases a.len(),
{
    lemma_hex(a);
    lemma_hex(b);
    if a.len() > 0 {
        let (ha, hb) = (hex(a), hex(b));
        let n = ha.len() as int;
        lemma_hex(a.drop_last());
        lemma_hex(b.drop_last());
        assert(hex(a.drop_last()) == ha.take(n - 2));
        assert(hex(b.drop_last()) == hb.take(n - 2));
        law_hex_injective(a.drop_last(), b.drop_last());
        assert(ha[n - 2] == hex_byte(a.last())[0] && ha[n - 1] == hex_byte(a.last())[1]);
        assert(hb[n - 2] == hex_byte(b.last())[0] && hb[n - 1] == hex_byte(b.last())[1]);
        assert(a.last() == b.last());
        assert(a == a.drop_last().push(a.last()));
        assert(b == b.drop_last().push(b.last()));
    }
}

/// Every byte is rendered, in order, as two hexadecimal digits in lower case, the high one
/// first.
pub proof fn law_hex_tells_every_byte(bytes: Seq<u8>)
    ensures
        hex(bytes).len() == 2 * bytes.len(),
        forall|i: int|
            0 <= i < bytes.len() ==> hex(bytes)[2 * i] == "0123456789abcdef"@[#[trigger] bytes[i]
                as int / 16] && hex(bytes)[2 * i + 1] == "0123456789abcdef"@[bytes[i] as int % 16],
    decreases bytes.len(),
{
    lemma_hex(bytes);
    if bytes.len() > 0 {
        let init = bytes.drop_last();
        law_hex_tells_every_byte(init);
        lemma_hex(init);
        let b = bytes.last();
        number::law_digit_char((b / 16) as nat);
        number::law_digit_char((b % 16) as nat);
        assert forall|i: int| 0 <= i < bytes.len() implies hex(bytes)[2 * i]
            == "0123456789abcdef"@[#[trigger] bytes[i] as int / 16] && hex(bytes)[2 * i + 1]
            == "0123456789abcdef"@[bytes[i] as int % 16] by {
            if i < init.len() {
                assert(init[i] == bytes[i]);
                assert(hex(bytes)[2 * i] == hex(init)[2 * i]);
                assert(hex(bytes)[2 * i + 1] == hex(init)[2 * i + 1]);
            } else {
                assert(hex(bytes)[2 * i] == hex_byte(b)[0]);
                assert(hex(bytes)[2 * i + 1] == hex_byte(b)[1]);
            }
        }
    }
}

/// The text of a build ID tells every byte of the note: it is twice as long, and two characters
/// of it are the hexadecimal digits of each byte. An empty note and no note have none.
pub proof fn law_build_id_tells_the_note(id: Seq<u8>)
    ensures
        id.len() > 0 ==> (build_id_text(Some(id)) matches Some(t) && {
            &&& t.len() == 2 * id.len()
            &&& forall|i: int|
                0 <= i < id.len() ==> t[2 * i] == "0123456789abcdef"@[#[trigger] id[i] as int / 16]
                    && t[2 * i + 1] == "0123456789abcdef"@[id[i] as int % 16]
        }),
        id.len() == 0 ==> build_id_text(Some(id)) is None,
        build_id_text(None) is None,
{
    law_hex_tells_every_byte(id);
}

/// The build ID is that of the first note that holds one, however many notes stand before and
/// behind it; there is none exactly if no note holds one.
pub proof fn law_first_build_id(ids: Seq<Option<Seq<u8>>>, k: int)
    ensures
        0 <= k < ids.len() && ids[k] is Some && (forall|i: int|
            0 <= i < k ==> #[trigger] ids[i] is None) ==> first_build_id(ids) == ids[k],
        (forall|i: int| 0 <= i < ids.len() ==> #[trigger] ids[i] is None) <==> first_build_id(
            ids,
        ) is None,
    decreases ids.len(),
{
    if ids.len() > 0 {
        let rest = ids.drop_first();
        law_first_build_id(rest, k - 1);
        assert(forall|i: int| 0 <= i < rest.len() ==> #[trigger] rest[i] == ids[i + 1]);
        if ids[0] is None {
            if first_build_id(rest) is None {
                assert forall|i: int| 0 <= i < ids.len() implies #[trigger] ids[i] is None by {
                    if i > 0 {
                        assert(rest[i - 1] is None);
                    }
                }
            }
            if k > 0 && k < ids.len() && ids[k] is Some && (forall|i: int|
                0 <= i < k ==> #[trigger] ids[i] is None) {
                assert(rest[k - 1] == ids[k]);
                assert forall|i: int| 0 <= i < k - 1 implies #[trigger] rest[i] is None by {
                    assert(ids[i + 1] is None);
                }
            }
        }
    }
}

/// What a note holds is what its build ID counts as, and no other note holds one.
pub proof fn law_note_ids(notes: Seq<ElfNote<'_>>)
    ensures
        note_ids(notes).len() == notes.len(),
        forall|i: int|
            0 <= i < notes.len() ==> #[trigger] note_ids(notes)[i] == match notes[i] {
                ElfNote::GnuBuildId(id) => Some(id@),
                ElfNote::GnuAbiTag => None,
                ElfNote::Unknown => None,
            },
{
}

/// The build ID of an executable that the ELF reader accepts, and of which it gives the notes of
/// the section `.note.gnu.build-id`, tells every byte of the first build ID note, and there is
/// none if no note holds a byte of one.
pub proof fn law_build_id_of_executable(
    data: Seq<u8>,
    h: SectionHeader,
    ids: Seq<Option<Seq<u8>>>,
    k: int,
)
    requires
        elf_parses(data),
        elf_section(data, ".note.gnu.build-id"@) == Some(Some(h)),
        elf_notes(
            data,
            h.sh_type,
            h.sh_flags,
            h.sh_offset,
            h.sh_size,
            h.sh_addralign as usize,
        ) == Some(ids),
    ensures
        0 <= k < ids.len() && ids[k] is Some && (forall|i: int|
            0 <= i < k ==> #[trigger] ids[i] is None) ==> {
            let id = ids[k]->0;
            &&& id.len() == 0 ==> build_id_of(data) is None
            &&& id.len() > 0 ==> build_id_of(data) is Some && {
                let t = build_id_of(data)->0;
                &&& t.len() == 2 * id.len()
                &&& forall|i: int|
                    0 <= i < id.len() ==> t[2 * i] == "0123456789abcdef"@[#[trigger] id[i] as int
                        / 16] && t[2 * i + 1] == "0123456789abcdef"@[id[i] as int % 16]
            }
        },
        (forall|i: int| 0 <= i < ids.len() ==> #[trigger] ids[i] is None) ==> build_id_of(
            data,
        ) is None,
{
    law_first_build_id(ids, k);
    if 0 <= k < ids.len() && ids[k] is Some {
        law_build_id_tells_the_note(ids[k]->0);
    }
}

/// An executable that the ELF reader rejects, or of which it does not give the notes of the
/// section, has no build ID.
pub proof fn law_no_build_id(data: Seq<u8>)
    ensures
        !elf_parses(data) ==> build_id_of(data) is None,
        elf_section(data, ".note.gnu.build-id"@) is None ==> build_id_of(data) is None,
        elf_section(data, ".note.gnu.build-id"@) == Some(None::<SectionHeader>) ==> build_id_of(
            data,
        ) is None,
        elf_section(data, ".note.gnu.build-id"@) matches Some(Some(h)) && elf_notes(
            data,
            h.sh_type,
            h.sh_flags,
            h.sh_offset,
            h.sh_size,
            h.sh_addralign as usize,
        ) is None ==> build_id_of(data) is None,
{
}

/// The file is searched whenever it could be read and is no larger than 64 MB.
pub proof fn law_executable_is_searched(data: Seq<u8>)
    ensures
        executable_build_id(None) is None,
        data.len() <= 67108864 ==> executable_build_id(Some(data)) == build_id_of(data),
        data.len() > 67108864 ==> executable_build_id(Some(data)) is None,
{
}

proof fn lemma_notes_told(notes: Seq<ElfNote<'_>>)
    ensures
        forall|k: int|
            0 <= k < notes.len() && (#[trigger] notes[k] matches ElfNote::GnuBuildId(id)
                && id@.len() > 0) && (forall|i: int|
                0 <= i < k ==> !(#[trigger] notes[i] is GnuBuildId)) ==> {
                let id = notes[k]->GnuBuildId_0@;
                let t = build_id_text(first_build_id(note_ids(notes)));
                &&& t is Some
                &&& t->0.len() == 2 * id.len()
                &&& forall|i: int|
                    0 <= i < id.len() ==> t->0[2 * i] == "0123456789abcdef"@[#[trigger] id[i]
                        as int / 16] && t->0[2 * i + 1] == "0123456789abcdef"@[id[i] as int % 16]
            },
{
    assert forall|k: int|
        0 <= k < notes.len() && (#[trigger] notes[k] matches ElfNote::GnuBuildId(id) && id@.len()
            > 0) && (forall|i: int| 0 <= i < k ==> !(#[trigger] notes[i] is GnuBuildId)) implies {
        let id = notes[k]->GnuBuildId_0@;
        let t = build_id_text(first_build_id(note_ids(notes)));
        &&& t is Some
        &&& t->0.len() == 2 * id.len()
        &&& forall|i: int|
            0 <= i < id.len() ==> t->0[2 * i] == "0123456789abcdef"@[#[trigger] id[i] as int / 16]
                && t->0[2 * i + 1] == "0123456789abcdef"@[id[i] as int % 16]
    } by {
        let ids = note_ids(notes);
        law_note_ids(notes);
        assert forall|i: int| 0 <= i < k implies #[trigger] ids[i] is None by {
            assert(!(notes[i] is GnuBuildId));
        }
        assert(ids[k] is Some);
        law_first_build_id(ids, k);
        law_build_id_tells_the_note(notes[k]->GnuBuildId_0@);
    }
}

} // verus!
