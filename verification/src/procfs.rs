//! What the kernel says about a process in /proc.
use vstd::prelude::*;
use vstd::utf8::encode_utf8;

use crate::number;
use crate::text;

verus! {

/// The ending that the kernel puts behind the path of an executable that was unlinked.
pub const DELETED_SUFFIX: &'static str = " (deleted)";

/// What `String::from_utf8_lossy` makes of these bytes.
pub uninterp spec fn utf8_lossy(bytes: Seq<u8>) -> Seq<char>;

/// `String::from_utf8_lossy`: the text that the bytes encode, with replacement characters
/// where they are not UTF-8. Valid UTF-8 is decoded as it stands.
#[verifier::external_body]
fn from_utf8_lossy(bytes: &[u8]) -> (s: String)
    ensures
        s@ == utf8_lossy(bytes@),
        vstd::utf8::valid_utf8(bytes@) ==> s@ == vstd::utf8::decode_utf8(bytes@),
{
    String::from_utf8_lossy(bytes).into_owned()
}

/// Whether these bytes, where they are valid UTF-8, are decoded as they stand.
pub open spec fn decodes_as_it_stands(bytes: Seq<u8>) -> bool {
    vstd::utf8::valid_utf8(bytes) ==> utf8_lossy(bytes) == vstd::utf8::decode_utf8(bytes)
}

/// The optional bytes that an optional slice holds.
pub open spec fn bytes_of(b: Option<&[u8]>) -> Option<Seq<u8>> {
    match b {
        Some(b) => Some(b@),
        None => None,
    }
}

/// The path of an entry of /proc/<pid>.
pub open spec fn proc_path_spec(pid: nat, name: Seq<char>) -> Seq<char> {
    "/proc/"@ + number::decimal(pid) + "/"@ + name
}

/// The path of an entry of /proc/<pid>.
pub fn proc_path(pid: u32, name: &str) -> (r: String)
    ensures
        r@ == proc_path_spec(pid as nat, name@),
{
    let mut r = "/proc/".to_owned();
    number::push_digits(&mut r, pid as u64, 10);
    r.append("/");
    r.append(name);
    r
}

/// The executable path of a crashed process: where the link /proc/<pid>/exe leads, without
/// the mark of an unlinked file, or else the kernel's argument with slashes restored.
pub open spec fn resolved_exe_path(link: Option<Seq<u8>>, kernel_provided: Seq<char>) -> Seq<char> {
    match link {
        Some(target) => text::without_suffix(utf8_lossy(target), DELETED_SUFFIX@),
        None => text::replaced(kernel_provided, '!', '/'),
    }
}

/// Removes the mark that the kernel puts behind the path of an unlinked executable.
pub fn strip_deleted(target: &str) -> (r: String)
    ensures
        r@ == text::without_suffix(target@, DELETED_SUFFIX@),
{
    text::strip_suffix(target, DELETED_SUFFIX)
}

/// Resolves the executable path of a crashed process.
///
/// `link` is the target of the link /proc/<pid>/exe, where it could be read: the path that
/// the kernel maintains. Without it, the kernel's argument is used, in which each slash was
/// replaced by an exclamation mark.
pub fn resolve_exe_path(link: Option<&[u8]>, kernel_provided: &str) -> (r: String)
    ensures
        r@ == resolved_exe_path(bytes_of(link), kernel_provided@),
        link matches Some(target) ==> decodes_as_it_stands(target@),
        link matches Some(target) ==> forall|path: Seq<char>|
            target@ == #[trigger] encode_utf8(path + " (deleted)"@) ==> r@ == path,
        link matches Some(target) ==> forall|path: Seq<char>|
            target@ == #[trigger] encode_utf8(path) && !" (deleted)"@.is_suffix_of(path) ==> r@
                == path,
{
    proof {
        if let Some(target) = link {
            lemma_link_to_utf8(target@, kernel_provided@);
        }
    }
    match link {
        Some(target) => strip_deleted(from_utf8_lossy(target).as_str()),
        None => text::replace_char(kernel_provided, '!', '/'),
    }
}

/// The text of a /proc entry as it is recorded: trimmed, and for `cmdline` with spaces in
/// place of the NUL characters that end the arguments.
pub open spec fn proc_text_spec(name: Seq<char>, content: Seq<char>) -> Seq<char> {
    if name == "cmdline"@ {
        text::trimmed(text::replaced(content, '\0', ' '))
    } else {
        text::trimmed(content)
    }
}

/// The text of a /proc entry as it is recorded.
pub fn proc_text(name: &str, content: &str) -> (r: String)
    ensures
        r@ == proc_text_spec(name@, content@),
{
    if text::same_text(name, "cmdline") {
        text::trim(text::replace_char(content, '\0', ' ').as_str())
    } else {
        text::trim(content)
    }
}

/// The recorded text of a /proc entry, given its contents where they could be read.
pub open spec fn proc_string(name: Seq<char>, contents: Option<Seq<u8>>) -> Option<Seq<char>> {
    match contents {
        Some(bytes) => Some(proc_text_spec(name, utf8_lossy(bytes))),
        None => None,
    }
}

/// The recorded text of the entry `name` of /proc/<pid>.
///
/// `contents` is `None` where the entry could not be read. The contents may come from another
/// process, if the kernel has given the PID away again.
pub fn read_proc_string(name: &str, contents: Option<&[u8]>) -> (r: Option<String>)
    ensures
        text::text_of(r) == proc_string(name@, bytes_of(contents)),
        contents matches Some(bytes) ==> decodes_as_it_stands(bytes@),
{
    match contents {
        Some(bytes) => Some(proc_text(name, from_utf8_lossy(bytes).as_str())),
        None => None,
    }
}

/// The hostname, given the contents of its entry where they could be read.
pub open spec fn hostname_text(contents: Option<Seq<char>>) -> Seq<char> {
    match contents {
        Some(s) => text::trimmed(s),
        None => Seq::empty(),
    }
}

/// The hostname that /proc/sys/kernel/hostname holds, or nothing where it could not be read.
pub fn read_hostname(contents: Option<&str>) -> (r: String)
    ensures
        r@ == match contents {
            Some(s) => text::trimmed(s@),
            None => Seq::empty(),
        },
        r@ == hostname_text(crate::startup::str_text(contents)),
{
    match contents {
        Some(s) => text::trim(s),
        None => String::new(),
    }
}

/// A path without exclamation marks comes back from the kernel's substitution of its slashes.
pub proof fn law_restores_slashes(path: Seq<char>)
    requires
        forall|i: int| 0 <= i < path.len() ==> #[trigger] path[i] != '!',
    ensures
        resolved_exe_path(None, text::replaced(path, '/', '!')) == path,
{
}

/// A recorded `cmdline` holds no NUL character.
pub proof fn law_cmdline_has_no_nul(content: Seq<char>)
    ensures
        forall|i: int|
            0 <= i < proc_text_spec("cmdline"@, content).len() ==> #[trigger] proc_text_spec(
                "cmdline"@,
                content,
            )[i] != '\0',
{
    let s = text::replaced(content, '\0', ' ');
    assert forall|i: int| 0 <= i < text::trimmed(s).len() implies #[trigger] text::trimmed(s)[i]
        != '\0' by {
        text::lemma_trimmed_within(s);
        let k = choose|k: int| 0 <= k <= s.len() - text::trimmed(s).len() && text::trimmed(s)
            == #[trigger] s.subrange(k, k + text::trimmed(s).len());
        assert(text::trimmed(s)[i] == s[k + i]);
    }
}

/// The path of an entry of /proc/<pid>: the PID in decimal digits, then the entry's name.
pub proof fn law_proc_path(pid: nat, name: Seq<char>) -> (digits: Seq<char>)
    ensures
        proc_path_spec(pid, name) == "/proc/"@ + digits + "/"@ + name,
        number::decimal_value(digits) == pid,
        digits.len() > 0,
        forall|i: int| 0 <= i < digits.len() ==> '0' <= #[trigger] digits[i] <= '9',
        pid > 0 ==> digits[0] != '0',
        pid == 0 ==> digits.len() == 1,
{
    let d = number::decimal(pid);
    number::law_decimal_round_trip(pid);
    number::law_decimal_has_no_leading_zero(pid);
    assert forall|i: int| 0 <= i < d.len() implies '0' <= #[trigger] d[i] <= '9' by {
        assert(number::is_digit(d[i]));
    }
    d
}

/// Where the link could be read, the kernel's argument has no influence: the path is what the
/// link says, without the mark of an unlinked file where it has that mark.
pub proof fn law_link_decides(target: Seq<u8>, path: Seq<char>, arg: Seq<char>)
    ensures
        utf8_lossy(target) == path + " (deleted)"@ ==> resolved_exe_path(Some(target), arg) == path,
        utf8_lossy(target) == path && (forall|p: Seq<char>| path != #[trigger] (p + " (deleted)"@))
            ==> resolved_exe_path(Some(target), arg) == path,
        forall|other: Seq<char>| #[trigger]
            resolved_exe_path(Some(target), other) == resolved_exe_path(Some(target), arg),
{
    text::law_without_suffix(path, " (deleted)"@);
}

/// A link to the UTF-8 encoding of a path resolves to that path, whether or not the file was
/// unlinked since, and whatever the kernel's argument is.
pub proof fn law_link_to_utf8(path: Seq<char>, arg: Seq<char>)
    requires
        decodes_as_it_stands(encode_utf8(path)),
        decodes_as_it_stands(encode_utf8(path + " (deleted)"@)),
    ensures
        resolved_exe_path(Some(encode_utf8(path + " (deleted)"@)), arg) == path,
        (forall|p: Seq<char>| path != #[trigger] (p + " (deleted)"@)) ==> resolved_exe_path(
            Some(encode_utf8(path)),
            arg,
        ) == path,
{
    let marked = path + " (deleted)"@;
    vstd::utf8::encode_utf8_valid_utf8(path);
    vstd::utf8::encode_utf8_decode_utf8(path);
    vstd::utf8::encode_utf8_valid_utf8(marked);
    vstd::utf8::encode_utf8_decode_utf8(marked);
    law_link_decides(encode_utf8(marked), path, arg);
    law_link_decides(encode_utf8(path), path, arg);
}

/// Without the link, the path is the kernel's argument with a slash for each exclamation mark,
/// and with every other character as it is.
pub proof fn law_argument_gets_slashes(arg: Seq<char>)
    ensures
        ({
            let r = resolved_exe_path(None, arg);
            &&& r.len() == arg.len()
            &&& forall|i: int| 0 <= i < arg.len() && arg[i] == '!' ==> #[trigger] r[i] == '/'
            &&& forall|i: int| 0 <= i < arg.len() && arg[i] != '!' ==> #[trigger] r[i] == arg[i]
        }),
{
}

/// A recorded entry other than `cmdline` is a stretch of its contents, as it stands there, that
/// neither begins nor ends with whitespace and has nothing but whitespace around it.
pub proof fn law_entry_is_trimmed(name: Seq<char>, content: Seq<char>) -> (at: (int, int))
    requires
        name != "cmdline"@,
    ensures
        0 <= at.0 <= at.1 <= content.len(),
        proc_text_spec(name, content) == content.subrange(at.0, at.1),
        forall|k: int| 0 <= k < at.0 ==> text::is_white_space(#[trigger] content[k]),
        forall|k: int| at.1 <= k < content.len() ==> text::is_white_space(#[trigger] content[k]),
        at.0 < at.1 ==> !text::is_white_space(content[at.0]) && !text::is_white_space(
            content[at.1 - 1],
        ),
{
    text::law_trimmed_splits(content)
}

/// A recorded `cmdline` is a stretch of its contents, with a space for each NUL character and
/// every other character as it stands there, that neither begins nor ends with whitespace and
/// has nothing but whitespace and NUL characters around it.
pub proof fn law_cmdline_is_separated(content: Seq<char>) -> (at: (int, int))
    ensures
        ({
            let r = proc_text_spec("cmdline"@, content);
            &&& 0 <= at.0 <= at.1 <= content.len()
            &&& r.len() == at.1 - at.0
            &&& forall|k: int|
                0 <= k < r.len() ==> #[trigger] r[k] == if content[at.0 + k] == '\0' {
                    ' '
                } else {
                    content[at.0 + k]
                }
            &&& forall|k: int|
                0 <= k < content.len() && !(at.0 <= k < at.1) ==> #[trigger] content[k] == '\0'
                    || text::is_white_space(content[k])
            &&& r.len() > 0 ==> !text::is_white_space(r[0]) && !text::is_white_space(r.last())
        }),
{
    let s = text::replaced(content, '\0', ' ');
    let at = text::law_trimmed_splits(s);
    text::law_trimmed(s);
    assert forall|k: int| 0 <= k < content.len() && !(at.0 <= k < at.1) implies
        #[trigger] content[k] == '\0' || text::is_white_space(content[k]) by {
        assert(text::is_white_space(s[k]));
    }
    at
}

/// An entry is recorded if and only if it could be read, and the recorded text is that of its
/// decoded contents.
pub proof fn law_recorded_iff_read(name: Seq<char>, bytes: Seq<u8>)
    ensures
        proc_string(name, None) is None,
        proc_string(name, Some(bytes)) == Some(proc_text_spec(name, utf8_lossy(bytes))),
        vstd::utf8::valid_utf8(bytes) && decodes_as_it_stands(bytes) ==> proc_string(
            name,
            Some(bytes),
        ) == Some(proc_text_spec(name, vstd::utf8::decode_utf8(bytes))),
{
}

proof fn lemma_link_to_utf8(target: Seq<u8>, arg: Seq<char>)
    ensures
        decodes_as_it_stands(target) ==> forall|path: Seq<char>|
            target == #[trigger] encode_utf8(path + " (deleted)"@) ==> resolved_exe_path(
                Some(target),
                arg,
            ) == path,
        decodes_as_it_stands(target) ==> forall|path: Seq<char>|
            target == #[trigger] encode_utf8(path) && !" (deleted)"@.is_suffix_of(path)
                ==> resolved_exe_path(Some(target), arg) == path,
{
    assert forall|path: Seq<char>|
        decodes_as_it_stands(target) && target == #[trigger] encode_utf8(
            path + " (deleted)"@,
        ) implies resolved_exe_path(Some(target), arg) == path by {
        vstd::utf8::encode_utf8_valid_utf8(path + " (deleted)"@);
        vstd::utf8::encode_utf8_decode_utf8(path + " (deleted)"@);
        text::law_without_suffix(path, " (deleted)"@);
    }
    assert forall|path: Seq<char>|
        decodes_as_it_stands(target) && target == #[trigger] encode_utf8(path)
            && !" (deleted)"@.is_suffix_of(path) implies resolved_exe_path(Some(target), arg)
        == path by {
        vstd::utf8::encode_utf8_valid_utf8(path);
        vstd::utf8::encode_utf8_decode_utf8(path);
    }
}

/// An optional slice holds bytes if it is there, and those bytes.
pub proof fn law_bytes_of(b: &[u8])
    ensures
        bytes_of(Some(b)) == Some(b@),
        bytes_of(None) is None,
{
}

/// The hostname is what stands in its entry without the whitespace around it, and empty where
/// the entry could not be read.
pub proof fn law_hostname(contents: Seq<char>) -> (at: (int, int))
    ensures
        hostname_text(None).len() == 0,
        0 <= at.0 <= at.1 <= contents.len(),
        hostname_text(Some(contents)) == contents.subrange(at.0, at.1),
        forall|k: int| 0 <= k < at.0 ==> text::is_white_space(#[trigger] contents[k]),
        forall|k: int| at.1 <= k < contents.len() ==> text::is_white_space(#[trigger] contents[k]),
        at.0 < at.1 ==> !text::is_white_space(contents[at.0]) && !text::is_white_space(
            contents[at.1 - 1],
        ),
{
    text::law_trimmed_splits(contents)
}

} // verus!
