//! Byte-level inspection of a raw MFT table.
//!
//! The first slot's header fixes the slot size for the whole table; the
//! number of slots is the table size divided by the slot size.  Before
//! a slot is handed to the decoder, its update-sequence fields are
//! checked: the decoder applies the fixup array to slots carrying the
//! record signature, and it does so only within the bounds these checks
//! establish.

use vstd::arithmetic::div_mod::lemma_fundamental_div_mod;
use vstd::arithmetic::mul::lemma_mul_inequality;
use vstd::prelude::*;

verus! {

/// A little-endian reading of two bytes.
pub open spec fn le16(b0: u8, b1: u8) -> int {
    b0 + 256 * b1
}

/// A little-endian reading of four bytes.
pub open spec fn le32(b0: u8, b1: u8, b2: u8, b3: u8) -> int {
    b0 + 256 * b1 + 65536 * b2 + 16777216 * b3
}

/// Whether the four bytes at `base` spell the in-use record signature.
pub open spec fn file_signature_at(t: Seq<u8>, base: int) -> bool {
    t[base] == 0x46u8 && t[base + 1] == 0x49u8 && t[base + 2] == 0x4cu8 && t[base + 3] == 0x45u8
}

/// Whether the four bytes at `base` spell the bad-block signature.
pub open spec fn baad_signature_at(t: Seq<u8>, base: int) -> bool {
    t[base] == 0x42u8 && t[base + 1] == 0x41u8 && t[base + 2] == 0x41u8 && t[base + 3] == 0x44u8
}

/// The slot size of the table: the allocated entry size recorded in the
/// first slot's header.
pub open spec fn entry_size_of(t: Seq<u8>) -> int {
    le32(t[28], t[29], t[30], t[31])
}

/// Whether the table opens with a readable header: enough bytes for
/// one record header, a known signature, and a sensible slot size.
/// Real tables use slots of 1024 or 4096 bytes; anything above 32768
/// is refused, which also keeps every slot-offset computation of the
/// decoder inside the 64-bit range.
pub open spec fn table_header_ok(t: Seq<u8>) -> bool {
    &&& t.len() >= 42
    &&& (file_signature_at(t, 0) || baad_signature_at(t, 0))
    &&& 0 < entry_size_of(t) <= 32768
}

/// How many whole slots the table holds.
pub open spec fn slot_count_of(t: Seq<u8>) -> int {
    t.len() as int / entry_size_of(t)
}

/// Whether the update-sequence fields of slot `i` keep the decoder's
/// fixup application inside the slot: the fixup array must lie within
/// the slot and must not name more sectors than the slot has.  Slots
/// without the in-use signature get no fixup treatment and are always
/// acceptable, as are slots too small to hold a full header.
pub open spec fn slot_fixups_sane(t: Seq<u8>, i: int) -> bool {
    let es = entry_size_of(t);
    let base = i * es;
    if es < 42 {
        true
    } else if !file_signature_at(t, base) {
        true
    } else {
        let uo = le16(t[base + 4], t[base + 5]);
        let us = le16(t[base + 6], t[base + 7]);
        &&& us >= 1
        &&& us <= 32767
        &&& uo + 2 * us <= es
        &&& (us >= 2 ==> 512 * (us - 1) <= es)
    }
}

/// Whether the decoder may touch slot `i` at all: its fixup fields and
/// its attribute walk are both within bounds.
pub open spec fn slot_sane(t: Seq<u8>, i: int) -> bool {
    slot_fixups_sane(t, i) && slot_walk_sane(t, i)
}

/// A slot index below the slot count addresses bytes inside the table.
pub proof fn lemma_slot_in_table(len: int, es: int, i: int)
    requires
        es > 0,
        len >= 0,
        0 <= i < len / es,
    ensures
        0 <= i * es,
        i * es + es <= len,
{
    lemma_fundamental_div_mod(len, es);
    lemma_mul_inequality(i + 1, len / es, es);
    assert((i + 1) * es == i * es + es) by (nonlinear_arith);
    assert(i * es >= 0) by (nonlinear_arith)
        requires
            i >= 0,
            es > 0,
    ;
}

/// Reads two bytes little-endian.
pub fn read_le16(t: &Vec<u8>, off: usize) -> (r: u64)
    requires
        off + 2 <= t@.len(),
    ensures
        r as int == le16(t@[off as int], t@[off as int + 1]),
        r < 65536,
{
    let n = t.len();
    let b0 = t[off];
    let b1 = t[off + 1];
    (b0 as u64) + 256 * (b1 as u64)
}

/// Reads four bytes little-endian.
pub fn read_le32(t: &Vec<u8>, off: usize) -> (r: u64)
    requires
        off + 4 <= t@.len(),
    ensures
        r as int == le32(
            t@[off as int],
            t@[off as int + 1],
            t@[off as int + 2],
            t@[off as int + 3],
        ),
        r < 0x1_0000_0000,
{
    let n = t.len();
    let b0 = t[off];
    let b1 = t[off + 1];
    let b2 = t[off + 2];
    let b3 = t[off + 3];
    (b0 as u64) + 256 * (b1 as u64) + 65536 * (b2 as u64) + 16777216 * (b3 as u64)
}

/// Copies a byte table.
pub fn copy_bytes(src: &Vec<u8>) -> (r: Vec<u8>)
    ensures
        r@ == src@,
{
    let mut r: Vec<u8> = Vec::new();
    let n = src.len();
    let mut i: usize = 0;
    while i < n
        invariant
            n == src@.len(),
            i <= n,
            r@ == src@.subrange(0, i as int),
        decreases n - i,
    {
        r.push(src[i]);
        proof {
            assert(r@ =~= src@.subrange(0, i + 1));
        }
        i = i + 1;
    }
    proof {
        assert(src@.subrange(0, n as int) =~= src@);
    }
    r
}

/// Decides `table_header_ok` on the raw table.
pub fn check_table_header(t: &Vec<u8>) -> (b: bool)
    ensures
        b == table_header_ok(t@),
{
    if t.len() < 42 {
        return false;
    }
    let file_sig = t[0] == 0x46 && t[1] == 0x49 && t[2] == 0x4c && t[3] == 0x45;
    let baad_sig = t[0] == 0x42 && t[1] == 0x41 && t[2] == 0x41 && t[3] == 0x44;
    if !(file_sig || baad_sig) {
        return false;
    }
    let es = read_le32(t, 28);
    0 < es && es <= 32768
}

/// Reads the slot size off the table.
pub fn read_entry_size(t: &Vec<u8>) -> (r: u64)
    requires
        table_header_ok(t@),
    ensures
        r as int == entry_size_of(t@),
        0 < r <= 32768,
{
    read_le32(t, 28)
}

/// Decides `slot_fixups_sane` for slot `i`.
pub fn check_slot_fixups(t: &Vec<u8>, i: u64, es: u64) -> (b: bool)
    requires
        es as int == entry_size_of(t@),
        es > 0,
        (i as int) < slot_count_of(t@),
    ensures
        b == slot_fixups_sane(t@, i as int),
{
    let n = t.len();
    proof {
        lemma_slot_in_table(n as int, es as int, i as int);
    }
    if es < 42 {
        return true;
    }
    let base = (i * es) as usize;
    assert(base + es <= n);
    let file_sig = t[base] == 0x46 && t[base + 1] == 0x49 && t[base + 2] == 0x4c && t[base + 3]
        == 0x45;
    if !file_sig {
        return true;
    }
    let uo = read_le16(t, base + 4);
    let us = read_le16(t, base + 6);
    us >= 1 && us <= 32767 && uo + 2 * us <= es && (us < 2 || 512 * (us - 1) <= es)
}

/// The attribute type codes the decoder knows.
pub open spec fn known_attr_type(ty: int) -> bool {
    ||| ty == 0x10
    ||| ty == 0x20
    ||| ty == 0x30
    ||| ty == 0x40
    ||| ty == 0x50
    ||| ty == 0x60
    ||| ty == 0x70
    ||| ty == 0x80
    ||| ty == 0x90
    ||| ty == 0xa0
    ||| ty == 0xb0
    ||| ty == 0xc0
    ||| ty == 0xd0
    ||| ty == 0xe0
    ||| ty == 0x100
}

/// The attribute types whose content the reader's walks parse: the
/// standard information, the filename, and the data attributes.
pub open spec fn content_parsed_type(ty: int) -> bool {
    ty == 0x10 || ty == 0x30 || ty == 0x80
}

/// A little-endian reading of `k` bytes.
pub open spec fn le_val(s: Seq<u8>, start: int, k: nat) -> int
    decreases k,
{
    if k == 0 {
        0
    } else {
        s[start] + 256 * le_val(s, start + 1, (k - 1) as nat)
    }
}

/// The value bound of a `k`-byte field.
pub open spec fn bytes_bound(k: int) -> int {
    if k == 1 {
        0x100
    } else if k == 2 {
        0x1_0000
    } else if k == 3 {
        0x100_0000
    } else if k == 4 {
        0x1_0000_0000
    } else if k == 5 {
        0x100_0000_0000
    } else if k == 6 {
        0x1_0000_0000_0000
    } else if k == 7 {
        0x100_0000_0000_0000
    } else {
        0x1_0000_0000_0000_0000
    }
}

/// The two's-complement reading of `k` little-endian bytes.
pub open spec fn le_sval(s: Seq<u8>, start: int, k: int) -> int {
    let v = le_val(s, start, k as nat);
    if 2 * v >= bytes_bound(k) {
        v - bytes_bound(k)
    } else {
        v
    }
}

/// A 64-bit unsigned value reinterpreted as signed.
pub open spec fn as_signed64(u: int) -> int {
    if u >= 0x8000_0000_0000_0000 {
        u - 0x1_0000_0000_0000_0000
    } else {
        u
    }
}

/// A signed value reinterpreted as 64-bit unsigned.
pub open spec fn as_unsigned64(v: int) -> int {
    if v < 0 {
        v + 0x1_0000_0000_0000_0000
    } else {
        v
    }
}

/// Whether the decoder's reading of a data-run list stays inside
/// signed 64-bit arithmetic.  The decoder reads run entries of one
/// header byte (offset width high, length width low) and the named
/// widths of bytes; it stops at a zero header, a width above eight, or
/// the end of the region.  A nonzero header with a zero length width
/// shifts by the full word, and a relative offset whose sum with the
/// previous run's offset leaves the signed 64-bit range overflows:
/// both abort instead of returning, so they are refused here.  `last`
/// carries the previous run's unsigned offset value.
pub open spec fn runs_ok(s: Seq<u8>, pos: int, end: int, last: Option<int>) -> bool
    decreases end - pos,
{
    if pos >= end {
        true
    } else {
        let h = s[pos] as int;
        if h == 0 {
            true
        } else {
            let os_width = h / 16;
            let ls_width = h % 16;
            if os_width > 8 || ls_width > 8 {
                true
            } else if ls_width == 0 {
                false
            } else if pos + 1 + ls_width > end {
                true
            } else if os_width == 0 {
                runs_ok(s, pos + 1 + ls_width, end, Some(0))
            } else if pos + 1 + ls_width + os_width > end {
                true
            } else {
                let voff = pos + 1 + ls_width;
                match last {
                    None => runs_ok(
                        s,
                        voff + os_width,
                        end,
                        Some(le_val(s, voff, os_width as nat)),
                    ),
                    Some(lcn) => {
                        let sum = as_signed64(lcn) + le_sval(s, voff, os_width);
                        if sum < -0x8000_0000_0000_0000 || sum > 0x7fff_ffff_ffff_ffff {
                            false
                        } else {
                            runs_ok(s, voff + os_width, end, Some(as_unsigned64(sum)))
                        }
                    },
                }
            }
        }
    }
}

/// Whether the data runs of the attribute record at `off` (type `ty`,
/// record length `rl`, lying wholly inside the slot) are safe to read:
/// only non-resident attributes of a content-parsed type have their
/// runs read, from the run offset named at byte 32 of the record up to
/// the record's end; a run region the decoder cannot read in full is
/// never decoded.
pub open spec fn attr_runs_ok(s: Seq<u8>, off: int, ty: int, rl: int) -> bool {
    if !content_parsed_type(ty) {
        true
    } else if off + 9 > s.len() {
        true
    } else if s[off + 8] != 1 {
        true
    } else if off + 34 > s.len() {
        true
    } else {
        let dr = le16(s[off + 32], s[off + 33]);
        if dr >= rl {
            true
        } else {
            runs_ok(s, off + dr, off + rl, None)
        }
    }
}

/// Whether the attribute walk that starts at `off` in the slot bytes
/// `s` comes to an end and never reads a data-run list the decoder
/// would abort on.  The decoder stops at the end marker, at an unknown
/// type code, and at a truncated record; it only walks on past an
/// attribute whose type it knows, moving by that record's length, so a
/// zero length there would hold it in place forever.
pub open spec fn attr_walk_ok(s: Seq<u8>, off: int) -> bool
    decreases s.len() - off,
{
    if off < 0 || off + 8 > s.len() {
        true
    } else {
        let ty = le32(s[off], s[off + 1], s[off + 2], s[off + 3]);
        let rl = le32(s[off + 4], s[off + 5], s[off + 6], s[off + 7]);
        if ty == 0xffff_ffff {
            true
        } else if !known_attr_type(ty) {
            true
        } else if rl == 0 {
            false
        } else if off + rl > s.len() {
            true
        } else if !attr_runs_ok(s, off, ty, rl) {
            false
        } else {
            attr_walk_ok(s, off + rl)
        }
    }
}

/// One byte of a slot after the decoder has applied the fixup array:
/// the last two bytes of each 512-byte stride are replaced by the
/// matching fixup value; everything else stands as read.
pub open spec fn fixup_byte(s: Seq<u8>, uo: int, us: int, j: int) -> u8 {
    if j % 512 >= 510 && j / 512 < us - 1 {
        s[uo + 2 * (j / 512) + 2 + (j % 512 - 510)]
    } else {
        s[j]
    }
}

/// The slot bytes after fixup application.
pub open spec fn fixed_slot(s: Seq<u8>, uo: int, us: int) -> Seq<u8> {
    Seq::new(s.len(), |j: int| fixup_byte(s, uo, us, j))
}

/// Whether the decoder's attribute walk over slot `i` terminates and
/// keeps every data-run reading inside signed 64-bit arithmetic.  An
/// in-use slot is walked after fixup application, a bad-block slot as
/// read; an empty slot's walk starts on its zero signature and stops at
/// once, and a slot the decoder rejects is never walked at all.
pub open spec fn slot_walk_sane(t: Seq<u8>, i: int) -> bool {
    let es = entry_size_of(t);
    let base = i * es;
    let slot = t.subrange(base, base + es);
    let fao = le16(t[base + 20], t[base + 21]);
    if es < 42 {
        true
    } else if file_signature_at(t, base) {
        if slot_fixups_sane(t, i) {
            attr_walk_ok(fixed_slot(slot, le16(t[base + 4], t[base + 5]), le16(t[base + 6], t[base + 7])), fao)
        } else {
            true
        }
    } else if baad_signature_at(t, base) {
        attr_walk_ok(slot, fao)
    } else {
        true
    }
}

/// Copies the bytes of slot `i` out of the table.
fn slot_bytes(t: &Vec<u8>, i: u64, es: u64) -> (r: Vec<u8>)
    requires
        es as int == entry_size_of(t@),
        es > 0,
        (i as int) < slot_count_of(t@),
    ensures
        r@ == t@.subrange(i as int * es as int, i as int * es as int + es as int),
{
    let n = t.len();
    proof {
        lemma_slot_in_table(n as int, es as int, i as int);
    }
    let base = (i * es) as usize;
    let mut r: Vec<u8> = Vec::new();
    let mut j: usize = 0;
    while j < es as usize
        invariant
            n == t@.len(),
            base + es <= n,
            base == i as int * es as int,
            j <= es,
            r@ == t@.subrange(base as int, base as int + j as int),
        decreases es - j,
    {
        r.push(t[base + j]);
        proof {
            assert(r@ =~= t@.subrange(base as int, base as int + (j + 1)));
        }
        j = j + 1;
    }
    r
}

/// Applies the fixup array to a copied slot, as the decoder does.
fn apply_fixups_copy(slot: &Vec<u8>, uo: u64, us: u64) -> (r: Vec<u8>)
    requires
        42 <= slot@.len(),
        1 <= us <= 32767,
        uo + 2 * us <= slot@.len(),
        us >= 2 ==> 512 * (us - 1) <= slot@.len(),
    ensures
        r@ == fixed_slot(slot@, uo as int, us as int),
{
    let n = slot.len();
    let mut r: Vec<u8> = Vec::new();
    let mut j: usize = 0;
    while j < n
        invariant
            n == slot@.len(),
            42 <= n,
            1 <= us <= 32767,
            uo + 2 * us <= n,
            us >= 2 ==> 512 * (us - 1) <= n,
            j <= n,
            r@ == fixed_slot(slot@, uo as int, us as int).subrange(0, j as int),
        decreases n - j,
    {
        let b: u8 = if j % 512 >= 510 && (j / 512) as u64 + 1 < us {
            slot[(uo as usize) + 2 * (j / 512) + 2 + (j % 512 - 510)]
        } else {
            slot[j]
        };
        proof {
            assert(b == fixup_byte(slot@, uo as int, us as int, j as int));
        }
        r.push(b);
        proof {
            assert(r@ =~= fixed_slot(slot@, uo as int, us as int).subrange(0, j + 1));
        }
        j = j + 1;
    }
    proof {
        assert(fixed_slot(slot@, uo as int, us as int).subrange(0, n as int) =~= fixed_slot(
            slot@,
            uo as int,
            us as int,
        ));
    }
    r
}

/// Decides `known_attr_type`.
fn is_known_attr_type(ty: u64) -> (b: bool)
    ensures
        b == known_attr_type(ty as int),
{
    ty == 0x10 || ty == 0x20 || ty == 0x30 || ty == 0x40 || ty == 0x50 || ty == 0x60 || ty == 0x70
        || ty == 0x80 || ty == 0x90 || ty == 0xa0 || ty == 0xb0 || ty == 0xc0 || ty == 0xd0
        || ty == 0xe0 || ty == 0x100
}

/// Powers of 256.
pub open spec fn pow256(k: nat) -> int
    decreases k,
{
    if k == 0 {
        1
    } else {
        256 * pow256((k - 1) as nat)
    }
}

/// A `k`-byte little-endian value is below the `k`-byte bound.
pub proof fn lemma_le_val_bound(s: Seq<u8>, start: int, k: nat)
    ensures
        0 <= le_val(s, start, k) < pow256(k),
    decreases k,
{
    if k == 0 {
    } else {
        lemma_le_val_bound(s, start + 1, (k - 1) as nat);
    }
}

/// Reads `k` bytes little-endian.
fn read_le_val(t: &Vec<u8>, start: usize, k: usize) -> (r: u64)
    requires
        1 <= k <= 8,
        start + k <= t@.len(),
    ensures
        r as int == le_val(t@, start as int, k as nat),
        (r as int) < pow256(k as nat),
{
    let n = t.len();
    let mut v: u64 = 0;
    let mut j: usize = k;
    proof {
        reveal_with_fuel(pow256, 9);
    }
    while j > 0
        invariant
            k <= 8,
            start + k <= n,
            n == t@.len(),
            j <= k,
            v as int == le_val(t@, start as int + j as int, (k - j) as nat),
            (v as int) < pow256((k - j) as nat),
            pow256(8) == 0x1_0000_0000_0000_0000,
            forall|m: nat| m < 8 ==> #[trigger] pow256(m) < pow256(8),
        decreases j,
    {
        proof {
            reveal_with_fuel(pow256, 9);
            lemma_le_val_bound(t@, start as int + j as int, (k - j) as nat);
            lemma_le_val_bound(t@, start as int + j as int - 1, (k - j + 1) as nat);
        }
        let b = t[start + j - 1];
        v = (b as u64) + 256 * v;
        j = j - 1;
    }
    proof {
        lemma_le_val_bound(t@, start as int, k as nat);
    }
    v
}

/// The `k`-byte value bound, as a machine value.
fn bytes_bound_exec(k: u64) -> (r: i128)
    requires
        1 <= k <= 8,
    ensures
        r as int == bytes_bound(k as int),
{
    match k {
        1 => 0x100,
        2 => 0x1_0000,
        3 => 0x100_0000,
        4 => 0x1_0000_0000,
        5 => 0x100_0000_0000,
        6 => 0x1_0000_0000_0000,
        7 => 0x100_0000_0000_0000,
        _ => 0x1_0000_0000_0000_0000,
    }
}

/// The shadow of the tracked last-run offset.
pub open spec fn opt_int_of(o: Option<u64>) -> Option<int> {
    match o {
        Some(v) => Some(v as int),
        None => None,
    }
}

/// Decides `runs_ok` over the region `[pos0, end)`.
fn check_runs(t: &Vec<u8>, pos0: u64, end: u64) -> (b: bool)
    requires
        pos0 <= end,
        end <= t@.len(),
        t@.len() <= 32768,
    ensures
        b == runs_ok(t@, pos0 as int, end as int, Option::None),
{
    let n = t.len();
    let mut pos = pos0;
    let mut last: Option<u64> = None;
    loop
        invariant
            n == t@.len(),
            n <= 32768,
            pos <= end <= n,
            runs_ok(t@, pos as int, end as int, opt_int_of(last)) == runs_ok(
                t@,
                pos0 as int,
                end as int,
                Option::None,
            ),
        decreases end - pos,
    {
        if pos >= end {
            return true;
        }
        let h = t[pos as usize];
        if h == 0 {
            return true;
        }
        let os_width = (h / 16) as u64;
        let ls_width = (h % 16) as u64;
        if os_width > 8 || ls_width > 8 {
            return true;
        }
        if ls_width == 0 {
            return false;
        }
        if pos + 1 + ls_width > end {
            return true;
        }
        if os_width == 0 {
            last = Some(0);
            pos = pos + 1 + ls_width;
            continue;
        }
        if pos + 1 + ls_width + os_width > end {
            return true;
        }
        let voff = pos + 1 + ls_width;
        let uval = read_le_val(t, voff as usize, os_width as usize);
        proof {
            reveal_with_fuel(pow256, 9);
            lemma_le_val_bound(t@, voff as int, os_width as nat);
        }
        match last {
            None => {
                last = Some(uval);
            },
            Some(lcn) => {
                let a: i128 = if lcn >= 0x8000_0000_0000_0000 {
                    lcn as i128 - 0x1_0000_0000_0000_0000i128
                } else {
                    lcn as i128
                };
                let m: i128 = bytes_bound_exec(os_width);
                let r: i128 = if 2 * (uval as i128) >= m {
                    uval as i128 - m
                } else {
                    uval as i128
                };
                let sum: i128 = a + r;
                if sum < -0x8000_0000_0000_0000i128 || sum > 0x7fff_ffff_ffff_ffffi128 {
                    return false;
                }
                let su: u64 = if sum < 0 {
                    (sum + 0x1_0000_0000_0000_0000i128) as u64
                } else {
                    sum as u64
                };
                last = Some(su);
            },
        }
        pos = voff + os_width;
    }
}

/// Decides `attr_runs_ok` for the attribute record at `off`.
fn check_attr_runs(t: &Vec<u8>, off: u64, ty: u64, rl: u64) -> (b: bool)
    requires
        off + rl <= t@.len(),
        rl >= 1,
        t@.len() <= 32768,
    ensures
        b == attr_runs_ok(t@, off as int, ty as int, rl as int),
{
    let n = t.len();
    if !(ty == 0x10 || ty == 0x30 || ty == 0x80) {
        return true;
    }
    if off + 9 > n as u64 {
        return true;
    }
    if t[(off + 8) as usize] != 1 {
        return true;
    }
    if off + 34 > n as u64 {
        return true;
    }
    let dr = read_le16(t, (off + 32) as usize);
    if dr >= rl {
        return true;
    }
    check_runs(t, off + dr, off + rl)
}

/// Decides `attr_walk_ok` from the given start offset.
fn check_attr_walk(s: &Vec<u8>, start: u64) -> (b: bool)
    requires
        start < 65536,
        s@.len() <= 32768,
    ensures
        b == attr_walk_ok(s@, start as int),
{
    let n = s.len();
    let mut off: u64 = start;
    loop
        invariant
            n == s@.len(),
            n <= 32768,
            off < 65536 + 0x1_0000_0000,
            attr_walk_ok(s@, start as int) == attr_walk_ok(s@, off as int),
        decreases s@.len() - off,
    {
        if off + 8 > n as u64 {
            return true;
        }
        let o = off as usize;
        let ty = read_le32(s, o);
        if ty == 0xffff_ffff {
            return true;
        }
        if !is_known_attr_type(ty) {
            return true;
        }
        let rl = read_le32(s, o + 4);
        if rl == 0 {
            return false;
        }
        if off + rl > n as u64 {
            return true;
        }
        if !check_attr_runs(s, off, ty, rl) {
            return false;
        }
        off = off + rl;
    }
}

/// Decides `slot_walk_sane` for slot `i`.
pub fn check_slot_walk(t: &Vec<u8>, i: u64, es: u64) -> (b: bool)
    requires
        es as int == entry_size_of(t@),
        0 < es <= 32768,
        (i as int) < slot_count_of(t@),
    ensures
        b == slot_walk_sane(t@, i as int),
{
    let n = t.len();
    proof {
        lemma_slot_in_table(n as int, es as int, i as int);
    }
    if es < 42 {
        return true;
    }
    let base = (i * es) as usize;
    let file_sig = t[base] == 0x46 && t[base + 1] == 0x49 && t[base + 2] == 0x4c && t[base + 3]
        == 0x45;
    let baad_sig = t[base] == 0x42 && t[base + 1] == 0x41 && t[base + 2] == 0x41 && t[base + 3]
        == 0x44;
    if !(file_sig || baad_sig) {
        return true;
    }
    let fao = read_le16(t, base + 20);
    let slot = slot_bytes(t, i, es);
    proof {
        assert(slot@[20] == t@[base + 20]);
        assert(slot@[21] == t@[base + 21]);
    }
    if file_sig {
        if !check_slot_fixups(t, i, es) {
            return true;
        }
        let uo = read_le16(t, base + 4);
        let us = read_le16(t, base + 6);
        proof {
            assert(slot@[4] == t@[base + 4]);
            assert(slot@[5] == t@[base + 5]);
            assert(slot@[6] == t@[base + 6]);
            assert(slot@[7] == t@[base + 7]);
        }
        let fixed = apply_fixups_copy(&slot, uo, us);
        check_attr_walk(&fixed, fao)
    } else {
        check_attr_walk(&slot, fao)
    }
}

} // verus!
