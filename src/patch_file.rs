use vstd::prelude::*;

use crate::error::PatchFileError;
use crate::hex::{
    all_hex_digits, hex_string, hex_value, is_hex_run, lemma_hex_string_round_trip,
    lemma_pow16_values, u64_from_hex, u8_from_hex,
};
use crate::hex_patch::{line_of, HexPatch};

verus! {

/// The address field of a patch line.
pub open spec fn address_field(l: Seq<char>) -> Seq<char> {
    l.subrange(0, 16)
}

/// The old-byte field of a patch line.
pub open spec fn old_field(l: Seq<char>) -> Seq<char> {
    l.subrange(17, 19)
}

/// The new-byte field of a patch line.
pub open spec fn new_field(l: Seq<char>) -> Seq<char> {
    l.subrange(21, 23)
}

/// A well-formed patch line: exactly 23 characters, sixteen hex digits, `:`,
/// two hex digits, `->`, two hex digits.
pub open spec fn is_patch_line(l: Seq<char>) -> bool {
    &&& l.len() == 23
    &&& l[16] == ':'
    &&& l[19] == '-'
    &&& l[20] == '>'
    &&& all_hex_digits(address_field(l))
    &&& all_hex_digits(old_field(l))
    &&& all_hex_digits(new_field(l))
}

/// The patch that a well-formed line describes.
pub open spec fn patch_of_line(l: Seq<char>) -> HexPatch {
    HexPatch {
        target_address: hex_value(address_field(l)) as u64,
        old: hex_value(old_field(l)) as u8,
        new: hex_value(new_field(l)) as u8,
    }
}

/// A header line: one that starts with `>`.
pub open spec fn is_header_line(l: Seq<char>) -> bool {
    l.len() > 0 && l[0] == '>'
}

/// A line-ending character.
pub open spec fn is_line_end(c: char) -> bool {
    c == '\n' || c == '\r'
}

/// `s` without the line-ending characters at its end.
pub open spec fn strip_line_end(s: Seq<char>) -> Seq<char>
    decreases s.len(),
{
    if s.len() > 0 && is_line_end(s.last()) {
        strip_line_end(s.drop_last())
    } else {
        s
    }
}

/// The target file name that a header line gives: all after the `>`, with
/// trailing line-ending characters removed.
pub open spec fn header_filename(l: Seq<char>) -> Seq<char> {
    strip_line_end(l.drop_first())
}

/// The views of a sequence of lines.
pub open spec fn line_views(lines: Seq<String>) -> Seq<Seq<char>> {
    lines.map_values(|l: String| l@)
}

/// What parsing a header line and the lines after it gives: the file name and
/// one patch per line, in order, when the header and every line are well
/// formed; a format error otherwise.
pub open spec fn parse_patch_file(first_line: Seq<char>, lines: Seq<Seq<char>>) -> Result<
    (Seq<char>, Seq<HexPatch>),
    PatchFileError,
> {
    if is_header_line(first_line) && forall|i: int|
        0 <= i < lines.len() ==> #[trigger] is_patch_line(lines[i]) {
        Ok((header_filename(first_line), lines.map_values(|l: Seq<char>| patch_of_line(l))))
    } else {
        Err(PatchFileError::WrongFormat)
    }
}

/// A parse result with the patch set replaced by its view.
pub open spec fn result_view(r: Result<F1337Patch, PatchFileError>) -> Result<
    (Seq<char>, Seq<HexPatch>),
    PatchFileError,
> {
    match r {
        Ok(p) => Ok(p@),
        Err(e) => Err(e),
    }
}

/// A patch set: the name of the file to patch and the patches, in order.
#[derive(Debug)]
pub struct F1337Patch {
    /// Name of the file that the patches apply to, as the header gives it.
    pub target_filename: String,
    /// The patches, in the order in which they were read or added.
    pub patches: Vec<HexPatch>,
}

impl View for F1337Patch {
    type V = (Seq<char>, Seq<HexPatch>);

    open spec fn view(&self) -> (Seq<char>, Seq<HexPatch>) {
        (self.target_filename@, self.patches@)
    }
}

impl F1337Patch {
    /// An empty patch set for `target_filename`.
    pub fn new(target_filename: String) -> (r: Self)
        ensures
            r@ == (target_filename@, Seq::<HexPatch>::empty()),
    {
        F1337Patch { target_filename, patches: Vec::new() }
    }

    /// Appends `patch` after the patches already held. Nothing is checked or
    /// merged.
    pub fn add_patch(&mut self, patch: HexPatch)
        ensures
            final(self)@ == (old(self)@.0, old(self)@.1.push(patch)),
    {
        self.patches.push(patch);
    }

    /// Checks that `line` (without line ending) is a well-formed patch line.
    pub fn check_patch_line_format(line: &String) -> (r: Result<(), PatchFileError>)
        ensures
            r is Ok <==> is_patch_line(line@),
            r is Err ==> r == Err::<(), PatchFileError>(PatchFileError::WrongFormat),
            line@.len() != 23 ==> r is Err,
    {
        let s = line.as_str();
        if s.unicode_len() != 23 {
            return Err(PatchFileError::WrongFormat);
        }
        if s.get_char(16) != ':' {
            return Err(PatchFileError::WrongFormat);
        }
        if s.get_char(19) != '-' || s.get_char(20) != '>' {
            return Err(PatchFileError::WrongFormat);
        }
        if !is_hex_run(s, 0, 16) {
            return Err(PatchFileError::WrongFormat);
        }
        if !is_hex_run(s, 17, 19) {
            return Err(PatchFileError::WrongFormat);
        }
        if !is_hex_run(s, 21, 23) {
            return Err(PatchFileError::WrongFormat);
        }
        Ok(())
    }

    /// The patch that a well-formed line describes.
    pub fn get_hex_patch_from_line(line: &String) -> (r: Result<HexPatch, std::num::ParseIntError>)
        requires
            is_patch_line(line@),
        ensures
            r is Ok && r->Ok_0 == patch_of_line(line@),
    {
        let s = line.as_str();
        let address = match u64_from_hex(s.substring_char(0, 16)) {
            Ok(v) => v,
            Err(e) => return Err(e),
        };
        let old = match u8_from_hex(s.substring_char(17, 19)) {
            Ok(v) => v,
            Err(e) => return Err(e),
        };
        let new = match u8_from_hex(s.substring_char(21, 23)) {
            Ok(v) => v,
            Err(e) => return Err(e),
        };
        Ok(HexPatch::new(address, old, new))
    }

    /// The target file name of a header line: all after the leading `>`, with
    /// trailing `\n` and `\r` removed. A line without the `>` is refused.
    pub fn get_filename(first_line: String) -> (r: Result<String, PatchFileError>)
        ensures
            r is Ok <==> is_header_line(first_line@),
            r is Ok ==> r->Ok_0@ == header_filename(first_line@),
            r is Err ==> r == Err::<String, PatchFileError>(PatchFileError::WrongFormat),
    {
        let s = first_line.as_str();
        let n = s.unicode_len();
        if n == 0 || s.get_char(0) != '>' {
            return Err(PatchFileError::WrongFormat);
        }
        let mut end: usize = n;
        assert(s@.subrange(1, n as int) =~= s@.drop_first());
        while end > 1 && (s.get_char(end - 1) == '\n' || s.get_char(end - 1) == '\r')
            invariant
                1 <= end <= n,
                n == s@.len(),
                strip_line_end(s@.subrange(1, end as int)) == header_filename(s@),
            decreases end,
        {
            assert(s@.subrange(1, end as int).drop_last() =~= s@.subrange(1, end - 1));
            end -= 1;
        }
        Ok(String::from_str(s.substring_char(1, end)))
    }
}

impl F1337Patch {
    /// Reads one patch line (without line ending) into the set: appends its
    /// patch when the line is well formed, and otherwise leaves the set as it
    /// was and reports a format error.
    pub fn push_line(&mut self, line: &String) -> (r: Result<(), PatchFileError>)
        ensures
            r is Ok <==> is_patch_line(line@),
            r is Ok ==> final(self)@ == (old(self)@.0, old(self)@.1.push(patch_of_line(line@))),
            r is Err ==> r == Err::<(), PatchFileError>(PatchFileError::WrongFormat),
            r is Err ==> final(self)@ == old(self)@,
    {
        if let Err(e) = Self::check_patch_line_format(line) {
            return Err(e);
        }
        match Self::get_hex_patch_from_line(line) {
            Ok(patch) => {
                self.add_patch(patch);
                Ok(())
            },
            Err(e) => Err(PatchFileError::from(e)),
        }
    }

    /// Parses a patch file given as its header line (a trailing line ending
    /// is allowed) and the lines after it (without line endings). Fails on the
    /// first malformed line; no partial result is returned.
    pub fn from_lines(first_line: String, lines: &Vec<String>) -> (r: Result<
        F1337Patch,
        PatchFileError,
    >)
        ensures
            result_view(r) == parse_patch_file(first_line@, line_views(lines@)),
            lines@.len() == 0 && is_header_line(first_line@) ==> r is Ok && r->Ok_0.patches@.len()
                == 0,
    {
        let ghost views = line_views(lines@);
        let ghost first = first_line@;
        let name = match Self::get_filename(first_line) {
            Ok(name) => name,
            Err(e) => return Err(e),
        };
        let mut patch_file = F1337Patch::new(name);
        let mut i: usize = 0;
        while i < lines.len()
            invariant
                i <= lines@.len(),
                views == line_views(lines@),
                is_header_line(first),
                patch_file@.0 == header_filename(first),
                forall|j: int| 0 <= j < i ==> #[trigger] is_patch_line(views[j]),
                patch_file@.1 == views.subrange(0, i as int).map_values(
                    |l: Seq<char>| patch_of_line(l),
                ),
            decreases lines@.len() - i,
        {
            assert(views[i as int] == lines@[i as int]@);
            if let Err(e) = patch_file.push_line(&lines[i]) {
                return Err(e);
            }
            assert(views.subrange(0, i + 1).map_values(|l: Seq<char>| patch_of_line(l))
                =~= views.subrange(0, i as int).map_values(|l: Seq<char>| patch_of_line(l)).push(
                patch_of_line(views[i as int]),
            ));
            i += 1;
        }
        assert(views.subrange(0, i as int) =~= views);
        Ok(patch_file)
    }
}

/// Rendering a patch as a line and reading that line back gives the same
/// patch: the line is well formed and describes the patch it came from.
pub proof fn lemma_line_round_trip(p: HexPatch)
    ensures
        is_patch_line(line_of(p)),
        patch_of_line(line_of(p)) == p,
{
    let l = line_of(p);
    let a = hex_string(p.target_address as nat, 16);
    let o = hex_string(p.old as nat, 2);
    let n = hex_string(p.new as nat, 2);
    lemma_pow16_values();
    lemma_hex_string_round_trip(p.target_address as nat, 16);
    lemma_hex_string_round_trip(p.old as nat, 2);
    lemma_hex_string_round_trip(p.new as nat, 2);
    assert(address_field(l) =~= a);
    assert(old_field(l) =~= o);
    assert(new_field(l) =~= n);
}

/// Parsing depends on the input alone: two parses of the same header and
/// lines give the same result.
pub proof fn lemma_parse_deterministic(
    first_line: Seq<char>,
    lines: Seq<Seq<char>>,
    r1: Result<F1337Patch, PatchFileError>,
    r2: Result<F1337Patch, PatchFileError>,
)
    requires
        result_view(r1) == parse_patch_file(first_line, lines),
        result_view(r2) == parse_patch_file(first_line, lines),
    ensures
        result_view(r1) == result_view(r2),
        r1 is Ok <==> r2 is Ok,
{
}

/// What a new patch set for `filename` holds after `add_patch` was called with
/// each of `patches` in turn.
pub open spec fn built_with(filename: Seq<char>, patches: Seq<HexPatch>) -> (
    Seq<char>,
    Seq<HexPatch>,
)
    decreases patches.len(),
{
    if patches.len() == 0 {
        (filename, Seq::empty())
    } else {
        let before = built_with(filename, patches.drop_last());
        (before.0, before.1.push(patches.last()))
    }
}

/// A patch set built with `new(filename)` and N calls of `add_patch` holds the
/// file name and exactly those N patches, in call order.
pub proof fn lemma_built_in_call_order(filename: Seq<char>, patches: Seq<HexPatch>)
    ensures
        built_with(filename, patches) == (filename, patches),
        built_with(filename, patches).1.len() == patches.len(),
    decreases patches.len(),
{
    if patches.len() > 0 {
        lemma_built_in_call_order(filename, patches.drop_last());
        assert(patches.drop_last().push(patches.last()) =~= patches);
    }
}

} // verus!
