//! Bounds-checked reads of little-endian integers and addresses.

use vstd::prelude::*;
use vstd::utf8::{decode_utf8, valid_utf8};
use crate::pubkey::Pubkey;

verus! {

/// The value of the four bytes at `at`, least significant byte first.
pub open spec fn le_u32(data: Seq<u8>, at: int) -> int {
    data[at] + data[at + 1] * 0x100 + data[at + 2] * 0x1_0000 + data[at + 3] * 0x100_0000
}

/// The value of the eight bytes at `at`, least significant byte first.
pub open spec fn le_u64(data: Seq<u8>, at: int) -> int {
    le_u32(data, at) + le_u32(data, at + 4) * 0x1_0000_0000
}

/// The value of the sixteen bytes at `at`, least significant byte first.
pub open spec fn le_u128(data: Seq<u8>, at: int) -> int {
    le_u64(data, at) + le_u64(data, at + 8) * 0x1_0000_0000_0000_0000
}

/// The eight bytes at `at` read as a two's complement number.
pub open spec fn le_i64(data: Seq<u8>, at: int) -> int {
    if le_u64(data, at) >= 0x8000_0000_0000_0000 {
        le_u64(data, at) - 0x1_0000_0000_0000_0000
    } else {
        le_u64(data, at)
    }
}

/// Whether `len` bytes starting at `at` lie inside `data`.
pub open spec fn in_bounds(data: Seq<u8>, at: int, len: int) -> bool {
    0 <= at && at + len <= data.len()
}

/// The address held in the 32 bytes at `at`.
pub open spec fn key_at(data: Seq<u8>, at: int) -> Seq<u8> {
    data.subrange(at, at + 32)
}

pub fn read_u8(data: &[u8], at: usize) -> (r: Option<u8>)
    ensures
        r.is_some() == in_bounds(data@, at as int, 1),
        r matches Some(v) ==> v == data@[at as int],
{
    if at < data.len() {
        Some(data[at])
    } else {
        None
    }
}

/// Reads one byte as a flag: 0 is `false`, 1 is `true`, any other byte is
/// refused.
pub fn read_bool(data: &[u8], at: usize) -> (r: Option<bool>)
    ensures
        r.is_some() == (in_bounds(data@, at as int, 1) && data@[at as int] <= 1),
        r matches Some(v) ==> v == (data@[at as int] == 1),
{
    if at < data.len() {
        let b: u8 = data[at];
        if b == 0 {
            Some(false)
        } else if b == 1 {
            Some(true)
        } else {
            None
        }
    } else {
        None
    }
}

pub fn read_u32_le(data: &[u8], at: usize) -> (r: Option<u32>)
    ensures
        r.is_some() == in_bounds(data@, at as int, 4),
        r matches Some(v) ==> v == le_u32(data@, at as int),
{
    if data.len() < 4 || at > data.len() - 4 {
        return None;
    }
    let b0: u32 = data[at] as u32;
    let b1: u32 = data[at + 1] as u32;
    let b2: u32 = data[at + 2] as u32;
    let b3: u32 = data[at + 3] as u32;
    Some(b0 + b1 * 0x100 + b2 * 0x1_0000 + b3 * 0x100_0000)
}

pub fn read_u64_le(data: &[u8], at: usize) -> (r: Option<u64>)
    ensures
        r.is_some() == in_bounds(data@, at as int, 8),
        r matches Some(v) ==> v == le_u64(data@, at as int),
{
    if data.len() < 8 || at > data.len() - 8 {
        return None;
    }
    let lo: u64 = match read_u32_le(data, at) {
        Some(v) => v as u64,
        None => { return None; },
    };
    let hi: u64 = match read_u32_le(data, at + 4) {
        Some(v) => v as u64,
        None => { return None; },
    };
    Some(lo + hi * 0x1_0000_0000)
}

pub fn read_i64_le(data: &[u8], at: usize) -> (r: Option<i64>)
    ensures
        r.is_some() == in_bounds(data@, at as int, 8),
        r matches Some(v) ==> v == le_i64(data@, at as int),
{
    match read_u64_le(data, at) {
        Some(v) => {
            if v >= 0x8000_0000_0000_0000 {
                let low: i64 = (v - 0x8000_0000_0000_0000) as i64;
                Some(low + i64::MIN)
            } else {
                Some(v as i64)
            }
        },
        None => None,
    }
}

pub fn read_u128_le(data: &[u8], at: usize) -> (r: Option<u128>)
    ensures
        r.is_some() == in_bounds(data@, at as int, 16),
        r matches Some(v) ==> v == le_u128(data@, at as int),
{
    if data.len() < 16 || at > data.len() - 16 {
        return None;
    }
    let lo: u128 = match read_u64_le(data, at) {
        Some(v) => v as u128,
        None => { return None; },
    };
    let hi: u128 = match read_u64_le(data, at + 8) {
        Some(v) => v as u128,
        None => { return None; },
    };
    Some(lo + hi * 0x1_0000_0000_0000_0000)
}

/// Reads the 32 bytes at `at` as an address.
pub fn read_pubkey(data: &[u8], at: usize) -> (r: Option<Pubkey>)
    ensures
        r.is_some() == in_bounds(data@, at as int, 32),
        r matches Some(p) ==> p@ == key_at(data@, at as int),
{
    if data.len() < 32 || at > data.len() - 32 {
        return None;
    }
    let mut bytes: [u8; 32] = [0u8; 32];
    let mut i: usize = 0;
    while i < 32
        invariant
            i <= 32,
            at + 32 <= data.len(),
            forall|j: int| 0 <= j < i ==> bytes[j] == data@[at + j],
        decreases 32 - i,
    {
        bytes[i] = data[at + i];
        i += 1;
    }
    let p = Pubkey { bytes };
    assert(p@ =~= key_at(data@, at as int));
    Some(p)
}

/// Where the text that starts at `at` ends: behind its four length bytes and
/// as many bytes of text as they say.
pub open spec fn text_end(data: Seq<u8>, at: int) -> int {
    at + 4 + le_u32(data, at)
}

/// Whether a length-prefixed text starts at `at` and lies inside `data`.
pub open spec fn text_fits(data: Seq<u8>, at: int) -> bool {
    in_bounds(data, at, 4) && text_end(data, at) <= data.len()
}

/// The bytes of the length-prefixed text that starts at `at`.
pub open spec fn text_bytes(data: Seq<u8>, at: int) -> Seq<u8> {
    data.subrange(at + 4, text_end(data, at))
}

/// What `String::from_utf8_lossy` makes of the bytes: their text, with the
/// replacement character in place of each part that is not UTF-8.
pub uninterp spec fn utf8_lossy_text(bytes: Seq<u8>) -> Seq<char>;

/// The bytes as text, if they are UTF-8.
///
/// Calls `String::from_utf8`, which accepts exactly the byte strings that are
/// valid UTF-8 and keeps their bytes.
#[verifier::external_body]
fn string_from_utf8(bytes: &[u8]) -> (r: Option<String>)
    ensures
        r.is_some() == valid_utf8(bytes@),
        r matches Some(s) ==> s@ == decode_utf8(bytes@),
{
    String::from_utf8(bytes.to_vec()).ok()
}

/// The bytes as text, whatever they hold.
///
/// Calls `String::from_utf8_lossy`. The contract only names its result.
#[verifier::external_body]
fn string_from_utf8_lossy(bytes: &[u8]) -> (s: String)
    ensures
        s@ == utf8_lossy_text(bytes@),
{
    String::from_utf8_lossy(bytes).into_owned()
}

/// The range of the text that starts at `at`, without its length bytes.
fn text_range(data: &[u8], at: usize) -> (r: Option<(usize, usize)>)
    ensures
        r.is_some() == text_fits(data@, at as int),
        r matches Some(range) ==> range.0 == at + 4 && range.1 == text_end(data@, at as int),
{
    let len: usize = match read_u32_le(data, at) {
        Some(n) => n as usize,
        None => { return None; },
    };
    if len > data.len() - at - 4 {
        return None;
    }
    Some((at + 4, at + 4 + len))
}

/// Reads a length-prefixed text that must be UTF-8; gives the text and the
/// offset behind it.
pub fn read_text(data: &[u8], at: usize) -> (r: Option<(String, usize)>)
    ensures
        r.is_some() == (text_fits(data@, at as int) && valid_utf8(text_bytes(data@, at as int))),
        r matches Some(found) ==> {
            &&& found.0@ == decode_utf8(text_bytes(data@, at as int))
            &&& found.1 == text_end(data@, at as int)
        },
{
    let (from, to) = text_range(data, at)?;
    let s = string_from_utf8(vstd::slice::slice_subrange(data, from, to))?;
    Some((s, to))
}

/// Reads a length-prefixed text, replacing what is not UTF-8; gives the text
/// and the offset behind it.
pub fn read_text_lossy(data: &[u8], at: usize) -> (r: Option<(String, usize)>)
    ensures
        r.is_some() == text_fits(data@, at as int),
        r matches Some(found) ==> {
            &&& found.0@ == utf8_lossy_text(text_bytes(data@, at as int))
            &&& found.1 == text_end(data@, at as int)
        },
{
    let (from, to) = text_range(data, at)?;
    let s = string_from_utf8_lossy(vstd::slice::slice_subrange(data, from, to));
    Some((s, to))
}

/// An account of the list, or the zero address where the list is shorter.
pub fn account_or_default(accounts: &[Pubkey], i: usize) -> (p: Pubkey)
    ensures
        p == account_or_zero(accounts@, i as int),
{
    if i < accounts.len() {
        accounts[i]
    } else {
        Pubkey::default()
    }
}

pub open spec fn account_or_zero(accounts: Seq<Pubkey>, i: int) -> Pubkey {
    if 0 <= i < accounts.len() {
        accounts[i]
    } else {
        Pubkey::zero()
    }
}

} // verus!
