//! The hardware fingerprint: serial numbers joined, hashed and cut to a
//! sixteen-digit identifier.

use vstd::prelude::*;
use vstd::string::*;
use vstd::utf8::*;
use crate::text::{from_chars, hex_string, hex_text, is_lower_hex, join, joined, remove_all, starts_with, text_of, to_chars, trim_chars, trimmed, views, without};
use sha2::Digest;

verus! {

/// The SHA-256 digest of a byte string.
pub uninterp spec fn sha256(data: Seq<u8>) -> Seq<u8>;

/// `Sha256::digest` of the `sha2` crate: the one-shot hash of `data`. The
/// digest depends on the bytes alone and is 32 bytes long.
#[verifier::external_body]
fn sha256_digest(data: &[u8]) -> (digest: Vec<u8>)
    ensures
        digest@ == sha256(data@),
        digest@.len() == 32,
{
    sha2::Sha256::digest(data).to_vec()
}

/// How many hexadecimal digits an identifier has.
pub const HWID_LEN: usize = 16;

/// What is returned where the hardware cannot be queried.
pub open spec fn unsupported_text() -> Seq<char> {
    "unsupported-platform"@
}

/// The separator between serial numbers.
pub open spec fn separator() -> Seq<char> {
    "|"@
}

/// The digest of the serial numbers joined by `|`, over the bytes of that
/// text in UTF-8.
pub open spec fn digest_of(serials: Seq<Seq<char>>) -> Seq<u8> {
    sha256(encode_utf8(joined(serials, separator())))
}

/// The identifier of a machine with the given serial numbers: the first
/// sixteen hexadecimal digits of their digest, which are the digits of its
/// first eight bytes.
pub open spec fn fingerprint(serials: Seq<Seq<char>>) -> Seq<char> {
    hex_text(digest_of(serials).subrange(0, 8))
}

/// The first sixteen hexadecimal digits of a digest.
pub fn digest_prefix(digest: &Vec<u8>) -> (id: String)
    requires
        digest@.len() >= 8,
    ensures
        id@ == hex_text(digest@.subrange(0, 8)),
        id@.len() == HWID_LEN,
        forall|i: int| 0 <= i < id@.len() ==> is_lower_hex(#[trigger] id@[i]),
{
    let head = vstd::slice::slice_subrange(digest.as_slice(), 0, 8);
    hex_string(head)
}

/// Computes the identifier from the serial numbers that were read, in the
/// order in which they were read.
pub fn fingerprint_of(serials: &Vec<String>) -> (id: String)
    ensures
        id@ == fingerprint(views(serials@)),
        digest_of(views(serials@)).len() == 32,
        id@.len() == HWID_LEN,
        forall|i: int| 0 <= i < id@.len() ==> is_lower_hex(#[trigger] id@[i]),
{
    let combined = join(serials, "|");
    let digest = sha256_digest(combined.as_str().as_bytes());
    digest_prefix(&digest)
}

/// What the hardware utilities printed: the standard output of each as text,
/// or nothing where the utility could not be run or printed no text.
#[derive(Debug)]
pub struct HardwareReport {
    pub processor: Option<String>,
    pub bios: Option<String>,
    pub disk: Option<String>,
}

/// The label before the processor identifier.
pub open spec fn processor_label() -> Seq<char> {
    "ProcessorId="@
}

/// The label before a serial number.
pub open spec fn serial_label() -> Seq<char> {
    "SerialNumber="@
}

/// Where the line that begins at `start` ends: at the next line feed, or at
/// the end of the text.
pub open spec fn line_end(text: Seq<char>, start: int) -> int
    decreases text.len() - start,
{
    if 0 <= start < text.len() && text[start] != '\n' {
        line_end(text, start + 1)
    } else {
        start
    }
}

/// The line that begins at `start`, without the line feed that ends it and
/// without a carriage return before that line feed.
pub open spec fn line_at(text: Seq<char>, start: int) -> Seq<char> {
    let end = line_end(text, start);
    let whole = text.subrange(start, end);
    if end < text.len() && whole.len() > 0 && whole.last() == '\r' {
        whole.drop_last()
    } else {
        whole
    }
}

/// A line ends at or after its beginning and within the text; no line feed
/// stands in it, and one stands at its end unless the text ends there.
pub proof fn lemma_line_end(text: Seq<char>, start: int)
    requires
        0 <= start <= text.len(),
    ensures
        start <= line_end(text, start) <= text.len(),
        forall|k: int| start <= k < line_end(text, start) ==> text[k] != '\n',
        line_end(text, start) < text.len() ==> text[line_end(text, start)] == '\n',
    decreases text.len() - start,
{
    if start < text.len() && text[start] != '\n' {
        lemma_line_end(text, start + 1);
    }
}

/// The first line at or after the line that begins at `start` which begins
/// with the label. What follows the last line feed is a line unless it is
/// empty.
pub open spec fn labelled_line(text: Seq<char>, label: Seq<char>, start: int) -> Option<Seq<char>>
    decreases text.len() + 1 - start,
    via labelled_line_ends
{
    if 0 <= start < text.len() {
        if label.is_prefix_of(line_at(text, start)) {
            Some(line_at(text, start))
        } else {
            labelled_line(text, label, line_end(text, start) + 1)
        }
    } else {
        None
    }
}

#[via_fn]
proof fn labelled_line_ends(text: Seq<char>, label: Seq<char>, start: int) {
    if 0 <= start < text.len() {
        lemma_line_end(text, start);
    }
}

/// The value of a labelled field in a utility's output: the first line that
/// begins with the label, without the label wherever it stands in the line,
/// and without the white space round what is left; nothing where no line
/// begins with the label.
pub open spec fn field_value(output: Seq<char>, label: Seq<char>) -> Option<Seq<char>> {
    match labelled_line(output, label, 0) {
        Some(line) => Some(trimmed(without(line, label))),
        None => None,
    }
}

/// The serial numbers so far, and one more where the utility's output holds
/// the labelled field.
pub open spec fn with_field(
    serials: Seq<Seq<char>>,
    output: Option<String>,
    label: Seq<char>,
) -> Seq<Seq<char>> {
    match output {
        Some(text) => match field_value(text@, label) {
            Some(value) => serials.push(value),
            None => serials,
        },
        None => serials,
    }
}

/// The serial numbers that a report holds: processor, BIOS, disk, each left
/// out where it could not be read.
pub open spec fn serials_of(report: &HardwareReport) -> Seq<Seq<char>> {
    with_field(
        with_field(
            with_field(Seq::empty(), report.processor, processor_label()),
            report.bios,
            serial_label(),
        ),
        report.disk,
        serial_label(),
    )
}

/// Reads a labelled field from a utility's output.
pub fn read_field(output: &str, label: &str) -> (value: Option<String>)
    ensures
        text_of(value) == field_value(output@, label@),
{
    let text = to_chars(output);
    let tag = to_chars(label);
    let n = text.len();
    let mut start: usize = 0;
    while start < n
        invariant
            start <= n,
            n == text@.len(),
            text@ == output@,
            tag@ == label@,
            labelled_line(text@, tag@, 0) == labelled_line(text@, tag@, start as int),
        decreases n - start,
    {
        let mut end: usize = start;
        while end < n && text[end] != '\n'
            invariant
                start <= end <= n,
                n == text@.len(),
                line_end(text@, start as int) == line_end(text@, end as int),
            decreases n - end,
        {
            end += 1;
        }
        let stop: usize = if end < n && end > start && text[end - 1] == '\r' {
            end - 1
        } else {
            end
        };
        let line = vstd::slice::slice_to_vec(
            vstd::slice::slice_subrange(text.as_slice(), start, stop),
        );
        proof {
            let whole = text@.subrange(start as int, end as int);
            if stop < end {
                assert(whole.drop_last() =~= text@.subrange(start as int, stop as int));
            }
            assert(line@ == line_at(text@, start as int));
        }
        if starts_with(&line, &tag) {
            let bare = remove_all(&line, &tag);
            let value = trim_chars(&bare);
            return Some(from_chars(&value));
        }
        if end >= n {
            assert(labelled_line(text@, tag@, end + 1).is_none());
            return None;
        }
        start = end + 1;
    }
    None
}

/// Adds the labelled field of a utility's output to the serial numbers, where
/// there is one.
fn push_field(serials: &mut Vec<String>, output: &Option<String>, label: &str)
    ensures
        views(final(serials)@) == with_field(views(old(serials)@), *output, label@),
        final(serials)@.len() <= old(serials)@.len() + 1,
{
    if let Some(text) = output {
        if let Some(value) = read_field(text.as_str(), label) {
            serials.push(value);
            assert(views(serials@) =~= views(old(serials)@).push(value@));
        }
    }
}

/// The serial numbers of a report, in the order processor, BIOS, disk.
pub fn read_serials(report: &HardwareReport) -> (serials: Vec<String>)
    ensures
        views(serials@) == serials_of(report),
        serials@.len() <= 3,
{
    let mut serials: Vec<String> = Vec::new();
    assert(views(serials@) =~= Seq::<Seq<char>>::empty());
    push_field(&mut serials, &report.processor, "ProcessorId=");
    push_field(&mut serials, &report.bios, "SerialNumber=");
    push_field(&mut serials, &report.disk, "SerialNumber=");
    serials
}

/// The identifier of this machine. With a report of the hardware utilities it
/// is the fingerprint of the serial numbers found in it; without one, on a
/// platform that has no such utilities, it is a fixed text.
pub fn get_hwid(report: Option<&HardwareReport>) -> (id: String)
    ensures
        match report {
            Some(r) => {
                &&& id@ == fingerprint(serials_of(r))
                &&& digest_of(serials_of(r)).len() == 32
                &&& id@.len() == HWID_LEN
                &&& forall|i: int| 0 <= i < id@.len() ==> is_lower_hex(#[trigger] id@[i])
            },
            None => id@ == unsupported_text(),
        },
{
    match report {
        Some(r) => {
            let serials = read_serials(r);
            fingerprint_of(&serials)
        },
        None => String::from_str("unsupported-platform"),
    }
}

/// Two lists that hold the same serial numbers in the same order have the
/// same identifier.
pub proof fn fingerprint_deterministic(a: Seq<String>, b: Seq<String>)
    requires
        a.len() == b.len(),
        forall|i: int| 0 <= i < a.len() ==> a[i]@ == b[i]@,
    ensures
        fingerprint(views(a)) == fingerprint(views(b)),
{
    assert(views(a) =~= views(b));
}

} // verus!
