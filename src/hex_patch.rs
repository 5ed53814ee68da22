use vstd::prelude::*;

use crate::hex::{hex_string, to_hex_string};

verus! {

/// One single-byte modification: at `target_address`, the byte `old` is to be
/// replaced by `new`. `old` and `new` may be equal (a no-op patch).
///
/// Its text form is `AAAAAAAAAAAAAAAA:OO->NN`: sixteen hex digits of address,
/// then two each of the old and new byte.
#[derive(Debug, PartialEq, Eq, Structural)]
pub struct HexPatch {
    /// Byte offset into the target file.
    pub target_address: u64,
    /// The byte expected at that offset.
    pub old: u8,
    /// The byte to write there.
    pub new: u8,
}

/// The canonical text of a patch: upper-case hex, zero-padded to the fixed
/// field widths.
pub open spec fn line_of(p: HexPatch) -> Seq<char> {
    hex_string(p.target_address as nat, 16) + seq![':'] + hex_string(p.old as nat, 2) + seq![
        '-',
        '>',
    ] + hex_string(p.new as nat, 2)
}

impl HexPatch {
    /// A patch of `address` from `old` to `new`.
    pub fn new(address: u64, old: u8, new: u8) -> (r: HexPatch)
        ensures
            r == (HexPatch { target_address: address, old, new }),
    {
        HexPatch { target_address: address, old, new }
    }

    /// The canonical text of this patch, as it stands on a line of a patch
    /// file (without line ending).
    pub fn to_line(&self) -> (r: String)
        ensures
            r@ == line_of(*self),
    {
        let mut s = to_hex_string(self.target_address, 16);
        let colon = ":";
        let arrow = "->";
        proof {
            reveal_strlit(":");
            reveal_strlit("->");
        }
        s.append(colon);
        s.append(to_hex_string(self.old as u64, 2).as_str());
        s.append(arrow);
        s.append(to_hex_string(self.new as u64, 2).as_str());
        assert(s@ =~= line_of(*self));
        s
    }
}

} // verus!
