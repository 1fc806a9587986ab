//! GUIDs: recognising the Memory Type Information owner GUID in captured text,
//! and the canonical 8-4-4-4-12 rendering of GUID fields.
use crate::model::ResourceDescriptor;
use crate::text::{all_hex_digits, hex_digit_value, hex_padded, push_char, push_hex_padded};
use vstd::prelude::*;

verus! {

/// Characters that the GUID text parser skips: `-` and ASCII white space.
pub open spec fn guid_skipped(c: char) -> bool {
    c == '-' || c == ' ' || c == '\t' || c == '\n' || c == '\x0C' || c == '\r'
}

/// The characters of a GUID text that are not skipped, in order.
pub open spec fn guid_digits(s: Seq<char>) -> Seq<char> {
    s.filter(|c: char| !guid_skipped(c))
}

/// Which pair of the 32 hex digits gives byte `k` (in memory order) of a GUID: the first
/// three fields (8, 4 and 4 digits) are stored little-endian, the last eight bytes in order.
pub open spec fn guid_byte_pair(k: int) -> int {
    if k < 4 {
        3 - k
    } else if k < 6 {
        9 - k
    } else if k < 8 {
        13 - k
    } else {
        k
    }
}

/// The 16 bytes (in memory order) of the GUID written in `s`: the characters that are not
/// skipped must be exactly 32 hex digits of either case, read as the fields
/// `time_low` (8 digits), `time_mid` (4), `time_hi_and_version` (4), `clk_seq_hi_res` (2),
/// `clk_seq_low` (2) and the six node bytes; `None` for any other text.
pub open spec fn guid_from_text(s: Seq<char>) -> Option<Seq<u8>> {
    let d = guid_digits(s);
    if d.len() == 32 && all_hex_digits(d) {
        Some(
            Seq::new(
                16,
                |k: int|
                    (hex_digit_value(d[2 * guid_byte_pair(k)]) * 16 + hex_digit_value(
                        d[2 * guid_byte_pair(k) + 1],
                    )) as u8,
            ),
        )
    } else {
        None
    }
}

/// Calls `patina::OwnedGuid::try_from_string` on `s` and hands out the bytes of the parsed
/// GUID (`as_bytes`, the layout of `r_efi`'s `Guid::from_fields`). The contract claims that
/// the parse succeeds exactly on the texts that `guid_from_text` accepts (patina skips `-`
/// and ASCII white space and needs exactly 32 ASCII hex digits), with those bytes.
#[verifier::external_body]
fn guid_bytes_from_str(s: &str) -> (r: Option<[u8; 16]>)
    ensures
        match r {
            Some(b) => guid_from_text(s@) == Some(b@),
            None => guid_from_text(s@) is None,
        },
{
    match patina::OwnedGuid::try_from_string(s) {
        Ok(guid) => Some(guid.as_bytes()),
        Err(_) => None,
    }
}

/// Bytes, in memory order, of the Memory Type Information GUID
/// `4C19049F-4137-4DD3-9C10-8B97A83FFDFA`.
pub open spec fn memory_type_info_guid_bytes() -> Seq<u8> {
    seq![
        0x9Fu8, 0x04u8, 0x19u8, 0x4Cu8, 0x37u8, 0x41u8, 0xD3u8, 0x4Du8,
        0x9Cu8, 0x10u8, 0x8Bu8, 0x97u8, 0xA8u8, 0x3Fu8, 0xFDu8, 0xFAu8,
    ]
}

/// The owner text names the Memory Type Information GUID.
pub open spec fn is_memory_type_info_owner(owner: Seq<char>) -> bool {
    guid_from_text(owner) == Some(memory_type_info_guid_bytes())
}

/// The resource descriptor is owned by the Memory Type Information GUID (it describes
/// the PEI memory bins).
pub open spec fn is_memory_type_info_spec(r: ResourceDescriptor) -> bool {
    is_memory_type_info_owner(r.owner@)
}

fn is_memory_type_info_guid(b: &[u8; 16]) -> (r: bool)
    ensures
        r == (b@ == memory_type_info_guid_bytes()),
{
    let r = b[0] == 0x9F && b[1] == 0x04 && b[2] == 0x19 && b[3] == 0x4C && b[4] == 0x37
        && b[5] == 0x41 && b[6] == 0xD3 && b[7] == 0x4D && b[8] == 0x9C && b[9] == 0x10
        && b[10] == 0x8B && b[11] == 0x97 && b[12] == 0xA8 && b[13] == 0x3F && b[14] == 0xFD
        && b[15] == 0xFA;
    if r {
        assert(b@ =~= memory_type_info_guid_bytes());
    } else {
        assert(b@ != memory_type_info_guid_bytes()) by {
            if b@ == memory_type_info_guid_bytes() {
                assert(b@[0] == 0x9F && b@[1] == 0x04 && b@[2] == 0x19 && b@[3] == 0x4C);
                assert(b@[4] == 0x37 && b@[5] == 0x41 && b@[6] == 0xD3 && b@[7] == 0x4D);
                assert(b@[8] == 0x9C && b@[9] == 0x10 && b@[10] == 0x8B && b@[11] == 0x97);
                assert(b@[12] == 0xA8 && b@[13] == 0x3F && b@[14] == 0xFD && b@[15] == 0xFA);
            }
        }
    }
    r
}

/// Whether the owner text parses as the Memory Type Information GUID.
pub fn is_memory_type_info_text(owner: &str) -> (r: bool)
    ensures
        r == is_memory_type_info_owner(owner@),
{
    match guid_bytes_from_str(owner) {
        Some(b) => is_memory_type_info_guid(&b),
        None => false,
    }
}

/// Whether a resource descriptor is owned by the Memory Type Information GUID.
pub fn is_memory_type_info(resource: &ResourceDescriptor) -> (r: bool)
    ensures
        r == is_memory_type_info_spec(*resource),
{
    is_memory_type_info_text(resource.owner.as_str())
}

/// The canonical lower-case `xxxxxxxx-xxxx-xxxx-xxxx-xxxxxxxxxxxx` rendering of a GUID
/// given by its fields.
pub open spec fn guid_text(
    time_low: u32,
    time_mid: u16,
    time_hi_and_version: u16,
    clk_seq_hi_res: u8,
    clk_seq_low: u8,
    node: Seq<u8>,
) -> Seq<char> {
    hex_padded(time_low as nat, 8) + seq!['-'] + hex_padded(time_mid as nat, 4) + seq!['-']
        + hex_padded(time_hi_and_version as nat, 4) + seq!['-'] + hex_padded(clk_seq_hi_res as nat, 2)
        + hex_padded(clk_seq_low as nat, 2) + seq!['-'] + hex_padded(node[0] as nat, 2)
        + hex_padded(node[1] as nat, 2) + hex_padded(node[2] as nat, 2) + hex_padded(node[3] as nat, 2)
        + hex_padded(node[4] as nat, 2) + hex_padded(node[5] as nat, 2)
}

/// Renders a GUID given by its fields in the canonical lower-case 8-4-4-4-12 form.
pub fn format_guid(
    time_low: u32,
    time_mid: u16,
    time_hi_and_version: u16,
    clk_seq_hi_res: u8,
    clk_seq_low: u8,
    node: &[u8; 6],
) -> (r: String)
    ensures
        r@ == guid_text(time_low, time_mid, time_hi_and_version, clk_seq_hi_res, clk_seq_low, node@),
{
    let mut s = String::new();
    push_hex_padded(&mut s, time_low as u64, 8);
    push_char(&mut s, '-');
    push_hex_padded(&mut s, time_mid as u64, 4);
    push_char(&mut s, '-');
    push_hex_padded(&mut s, time_hi_and_version as u64, 4);
    push_char(&mut s, '-');
    push_hex_padded(&mut s, clk_seq_hi_res as u64, 2);
    push_hex_padded(&mut s, clk_seq_low as u64, 2);
    push_char(&mut s, '-');
    let mut i: usize = 0;
    while i < 6
        invariant
            i <= 6,
            s@ == hex_padded(time_low as nat, 8) + seq!['-'] + hex_padded(time_mid as nat, 4)
                + seq!['-'] + hex_padded(time_hi_and_version as nat, 4) + seq!['-']
                + hex_padded(clk_seq_hi_res as nat, 2) + hex_padded(clk_seq_low as nat, 2)
                + seq!['-'] + node_text(node@, i as int),
        decreases 6 - i,
    {
        push_hex_padded(&mut s, node[i] as u64, 2);
        i += 1;
    }
    assert(node_text(node@, 6) =~= hex_padded(node@[0] as nat, 2) + hex_padded(node@[1] as nat, 2)
        + hex_padded(node@[2] as nat, 2) + hex_padded(node@[3] as nat, 2) + hex_padded(node@[4] as nat, 2)
        + hex_padded(node@[5] as nat, 2)) by {
        reveal_with_fuel(node_text, 7);
    }
    assert(s@ =~= guid_text(time_low, time_mid, time_hi_and_version, clk_seq_hi_res, clk_seq_low, node@));
    s
}

/// Two lower-case hex digits for each of the first `n` node bytes.
pub open spec fn node_text(node: Seq<u8>, n: int) -> Seq<char>
    decreases n,
{
    if n <= 0 {
        seq![]
    } else {
        node_text(node, n - 1) + hex_padded(node[n - 1] as nat, 2)
    }
}

/// Every GUID rendering is 36 characters long.
pub proof fn lemma_guid_text_len(
    time_low: u32,
    time_mid: u16,
    time_hi_and_version: u16,
    clk_seq_hi_res: u8,
    clk_seq_low: u8,
    node: Seq<u8>,
)
    requires
        node.len() == 6,
    ensures
        guid_text(time_low, time_mid, time_hi_and_version, clk_seq_hi_res, clk_seq_low, node).len()
            == 36,
{
    assert forall|n: nat, w: nat| #[trigger] hex_padded(n, w).len() == w by {
        lemma_hex_padded_len(n, w);
    }
}

/// `hex_padded(n, w)` has exactly `w` digits.
pub proof fn lemma_hex_padded_len(n: nat, w: nat)
    ensures
        hex_padded(n, w).len() == w,
    decreases w,
{
    if w > 0 {
        lemma_hex_padded_len(n / 16, (w - 1) as nat);
    }
}

} // verus!
