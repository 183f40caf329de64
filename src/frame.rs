use vstd::prelude::*;

verus! {

/// How many levels of arrays and maps a decoded message may nest.
pub const MAX_NESTING: u32 = 32;

/// Big-endian unsigned integer of two bytes at `pos`.
pub open spec fn be16(b: Seq<u8>, pos: int) -> int {
    b[pos] as int * 256 + b[pos + 1] as int
}

/// Big-endian unsigned integer of four bytes at `pos`.
pub open spec fn be32(b: Seq<u8>, pos: int) -> int {
    ((b[pos] as int * 256 + b[pos + 1] as int) * 256 + b[pos + 2] as int) * 256 + b[pos + 3] as int
}

/// Unsigned integer of `width` (1, 2 or 4) big-endian bytes at `pos`.
pub open spec fn be_uint(b: Seq<u8>, pos: int, width: int) -> int {
    if width == 1 {
        b[pos] as int
    } else if width == 2 {
        be16(b, pos)
    } else {
        be32(b, pos)
    }
}

/// End of `n` opaque bytes that start at `pos`, if they are all there.
pub open spec fn skip(b: Seq<u8>, pos: int, n: int) -> Option<int> {
    if pos + n <= b.len() {
        Some(pos + n)
    } else {
        None
    }
}

/// End of a payload whose length is a `width`-byte prefix at `pos`, read
/// after `extra` further header bytes.
pub open spec fn sized(b: Seq<u8>, pos: int, width: int, extra: int) -> Option<int> {
    if pos + width <= b.len() {
        skip(b, pos + width + extra, be_uint(b, pos, width))
    } else {
        None
    }
}

/// Number of items that a container with marker `t` holds, when its count
/// sits in the marker itself.
pub open spec fn fix_count(t: u8) -> int {
    if 0x80 <= t <= 0x8f {
        2 * (t - 0x80)
    } else {
        t - 0x90
    }
}

/// Width of the length prefix of a sized payload with marker `t`, and the
/// header bytes that follow it.
pub open spec fn prefix_of(t: u8) -> (int, int) {
    if t == 0xc4 || t == 0xd9 {
        (1, 0)
    } else if t == 0xc5 || t == 0xda {
        (2, 0)
    } else if t == 0xc6 || t == 0xdb {
        (4, 0)
    } else if t == 0xc7 {
        (1, 1)
    } else if t == 0xc8 {
        (2, 1)
    } else {
        (4, 1)
    }
}

/// Bytes after the marker of a value with marker `t` whose size is fixed.
pub open spec fn fixed_size(t: u8) -> int {
    if t == 0xcc || t == 0xd0 {
        1
    } else if t == 0xcd || t == 0xd1 || t == 0xd4 {
        2
    } else if t == 0xd5 {
        3
    } else if t == 0xca || t == 0xce || t == 0xd2 {
        4
    } else if t == 0xd6 {
        5
    } else if t == 0xcb || t == 0xcf || t == 0xd3 {
        8
    } else if t == 0xd7 {
        9
    } else {
        17
    }
}

/// Markers of values that are the marker byte alone.
pub open spec fn is_single(t: u8) -> bool {
    t <= 0x7f || t >= 0xe0 || t == 0xc0 || t == 0xc2 || t == 0xc3
}

/// Markers of strings whose length sits in the marker.
pub open spec fn is_fixstr(t: u8) -> bool {
    0xa0 <= t <= 0xbf
}

/// Markers of arrays and maps whose count sits in the marker.
pub open spec fn is_fix_container(t: u8) -> bool {
    0x80 <= t <= 0x9f
}

/// Markers of strings, binaries and extensions with a length prefix.
pub open spec fn is_sized(t: u8) -> bool {
    (0xc4 <= t <= 0xc9) || (0xd9 <= t <= 0xdb)
}

/// Markers of arrays and maps with a count prefix: 16-bit arrays and maps
/// first, then 32-bit ones.
pub open spec fn is_wide_container(t: u8) -> bool {
    0xdc <= t <= 0xdf
}

/// Width of the count prefix of a container with marker `t`, which is wide.
pub open spec fn wide_width(t: u8) -> int {
    if t == 0xdc || t == 0xde {
        2
    } else {
        4
    }
}

/// Items per counted element: two for a map, one for an array.
pub open spec fn wide_factor(t: u8) -> int {
    if t == 0xde || t == 0xdf {
        2
    } else {
        1
    }
}

/// End of the MessagePack value that starts at `pos`, where its arrays and
/// maps nest at most `budget` levels deep and all its bytes are there.
pub open spec fn item_end(b: Seq<u8>, pos: int, budget: nat) -> Option<int>
    decreases budget, 0nat,
{
    if pos < 0 || pos >= b.len() {
        None
    } else {
        let t = b[pos];
        let p = pos + 1;
        if is_single(t) {
            Some(p)
        } else if t == 0xc1 {
            None
        } else if is_fixstr(t) {
            skip(b, p, t - 0xa0)
        } else if is_fix_container(t) {
            if budget == 0 {
                None
            } else {
                items_end(b, p, fix_count(t) as nat, (budget - 1) as nat)
            }
        } else if is_sized(t) {
            sized(b, p, prefix_of(t).0, prefix_of(t).1)
        } else if is_wide_container(t) {
            if budget == 0 || p + wide_width(t) > b.len() {
                None
            } else {
                items_end(
                    b,
                    p + wide_width(t),
                    (wide_factor(t) * be_uint(b, p, wide_width(t))) as nat,
                    (budget - 1) as nat,
                )
            }
        } else {
            skip(b, p, fixed_size(t))
        }
    }
}

/// End of `count` MessagePack values in a row from `pos`, each nesting at
/// most `budget` levels deep.
pub open spec fn items_end(b: Seq<u8>, pos: int, count: nat, budget: nat) -> Option<int>
    decreases budget, count + 1,
{
    if count == 0 {
        Some(pos)
    } else {
        match item_end(b, pos, budget) {
            Some(q) => items_end(b, q, (count - 1) as nat, budget),
            None => None,
        }
    }
}

/// The bytes start with one complete MessagePack value whose arrays and maps
/// nest at most [`MAX_NESTING`] levels deep.
pub open spec fn nesting_within_limit(b: Seq<u8>) -> bool {
    item_end(b, 0, MAX_NESTING as nat) is Some
}

fn read_uint(b: &[u8], pos: usize, width: usize) -> (r: u64)
    requires
        width == 1 || width == 2 || width == 4,
        pos + width <= b@.len(),
    ensures
        r as int == be_uint(b@, pos as int, width as int),
{
    if width == 1 {
        b[pos] as u64
    } else if width == 2 {
        b[pos] as u64 * 256 + b[pos + 1] as u64
    } else {
        ((b[pos] as u64 * 256 + b[pos + 1] as u64) * 256 + b[pos + 2] as u64) * 256
            + b[pos + 3] as u64
    }
}

fn skip_exec(b: &[u8], pos: usize, n: u64) -> (r: Option<usize>)
    requires
        pos <= b@.len(),
    ensures
        match r {
            Some(q) => skip(b@, pos as int, n as int) == Some(q as int) && q <= b@.len(),
            None => skip(b@, pos as int, n as int) is None,
        },
{
    if n <= (b.len() - pos) as u64 {
        Some(pos + n as usize)
    } else {
        None
    }
}

fn scan_item(b: &[u8], pos: usize, budget: u32) -> (r: Option<usize>)
    ensures
        match r {
            Some(q) => item_end(b@, pos as int, budget as nat) == Some(q as int) && q <= b@.len(),
            None => item_end(b@, pos as int, budget as nat) is None,
        },
    decreases budget, 0nat,
{
    if pos >= b.len() {
        return None;
    }
    let t = b[pos];
    let p = pos + 1;
    if t <= 0x7f || t >= 0xe0 || t == 0xc0 || t == 0xc2 || t == 0xc3 {
        Some(p)
    } else if t == 0xc1 {
        None
    } else if 0xa0 <= t && t <= 0xbf {
        skip_exec(b, p, (t - 0xa0) as u64)
    } else if 0x80 <= t && t <= 0x9f {
        if budget == 0 {
            None
        } else {
            let count: u64 = if t <= 0x8f {
                2 * (t - 0x80) as u64
            } else {
                (t - 0x90) as u64
            };
            scan_items(b, p, count, budget - 1)
        }
    } else if (0xc4 <= t && t <= 0xc9) || (0xd9 <= t && t <= 0xdb) {
        let (width, extra): (usize, usize) = if t == 0xc4 || t == 0xd9 {
            (1, 0)
        } else if t == 0xc5 || t == 0xda {
            (2, 0)
        } else if t == 0xc6 || t == 0xdb {
            (4, 0)
        } else if t == 0xc7 {
            (1, 1)
        } else if t == 0xc8 {
            (2, 1)
        } else {
            (4, 1)
        };
        if width + extra > b.len() - p {
            None
        } else {
            let n = read_uint(b, p, width);
            skip_exec(b, p + width + extra, n)
        }
    } else if 0xdc <= t && t <= 0xdf {
        let width: usize = if t == 0xdc || t == 0xde {
            2
        } else {
            4
        };
        if budget == 0 || width > b.len() - p {
            None
        } else {
            let n = read_uint(b, p, width);
            let count: u64 = if t == 0xde || t == 0xdf {
                2 * n
            } else {
                n
            };
            scan_items(b, p + width, count, budget - 1)
        }
    } else {
        let n: u64 = if t == 0xcc || t == 0xd0 {
            1
        } else if t == 0xcd || t == 0xd1 || t == 0xd4 {
            2
        } else if t == 0xd5 {
            3
        } else if t == 0xca || t == 0xce || t == 0xd2 {
            4
        } else if t == 0xd6 {
            5
        } else if t == 0xcb || t == 0xcf || t == 0xd3 {
            8
        } else if t == 0xd7 {
            9
        } else {
            17
        };
        skip_exec(b, p, n)
    }
}

fn scan_items(b: &[u8], pos: usize, count: u64, budget: u32) -> (r: Option<usize>)
    requires
        pos <= b@.len(),
    ensures
        match r {
            Some(q) => items_end(b@, pos as int, count as nat, budget as nat) == Some(q as int)
                && q <= b@.len(),
            None => items_end(b@, pos as int, count as nat, budget as nat) is None,
        },
    decreases budget, 1nat,
{
    let mut cur = pos;
    let mut left = count;
    while left > 0
        invariant
            cur <= b@.len(),
            items_end(b@, pos as int, count as nat, budget as nat) == items_end(
                b@,
                cur as int,
                left as nat,
                budget as nat,
            ),
        decreases left,
    {
        match scan_item(b, cur, budget) {
            Some(q) => {
                cur = q;
                left = left - 1;
            },
            None => {
                return None;
            },
        }
    }
    Some(cur)
}

/// Whether the bytes start with one complete MessagePack value whose arrays
/// and maps nest at most [`MAX_NESTING`] levels deep.
pub fn check_nesting(b: &[u8]) -> (r: bool)
    ensures
        r == nesting_within_limit(b@),
{
    match scan_item(b, 0, MAX_NESTING) {
        Some(_) => true,
        None => false,
    }
}

} // verus!
