use vstd::prelude::*;
use vstd::utf8::{decode_utf8, encode_utf8, valid_utf8};

use crate::address::Address;
use crate::bytes::{
    append_bytes, copy_bytes, le_u64_at, le_value, pow256, read_le, read_u64_le, write_le,
    write_u64_le,
};
use crate::error::MarketError;
use crate::marketplace::{Marketplace, Module};

verus! {

broadcast use vstd::utf8::encode_utf8_valid_utf8, vstd::utf8::encode_utf8_decode_utf8, vstd::utf8::decode_utf8_encode_utf8;

/// Stored size of a marketplace record.
pub const MARKETPLACE_LEN: usize = 50;

/// Stored size of a module record with an empty locator.
pub const MODULE_BASE_LEN: usize = 70;

pub open spec fn bool_byte(b: bool) -> u8 {
    if b {
        1
    } else {
        0
    }
}

/// `data` starts with the stored form of `m`: the initialized flag, the
/// authority's 32 bytes, the fee byte, then revenue and sale count as 8-byte
/// little-endian integers.
pub open spec fn marketplace_layout(data: Seq<u8>, m: Marketplace) -> bool {
    &&& data.len() >= 50
    &&& data[0] == bool_byte(m.is_initialized)
    &&& data.subrange(1, 33) == m.authority@
    &&& data[33] == m.fee_percentage
    &&& le_u64_at(data, 34) == m.total_revenue
    &&& le_u64_at(data, 42) == m.total_modules_sold
}

/// Length of the locator stored in module data.
pub open spec fn stored_uri_len(data: Seq<u8>) -> int {
    le_value(data.subrange(42, 46)) as int
}

/// `data` starts with the stored form of `m`: the initialized flag, the
/// creator's 32 bytes, the price, the free-issuance flag, the locator as a
/// 4-byte length and its UTF-8 bytes, then sales, revenue and collected
/// revenue.
pub open spec fn module_layout(data: Seq<u8>, m: Module) -> bool {
    let uri = encode_utf8(m.uri@);
    let n = uri.len() as int;
    &&& data.len() >= 70 + n
    &&& data[0] == bool_byte(m.is_initialized)
    &&& data.subrange(1, 33) == m.creator@
    &&& le_u64_at(data, 33) == m.price
    &&& data[41] == bool_byte(m.is_free_issuance)
    &&& stored_uri_len(data) == n
    &&& data.subrange(46, 46 + n) == uri
    &&& le_u64_at(data, 46 + n) == m.total_sales
    &&& le_u64_at(data, 54 + n) == m.total_revenue
    &&& le_u64_at(data, 62 + n) == m.collected_revenue
}

/// Whether `data` starts with a readable module record.
pub open spec fn module_readable(data: Seq<u8>) -> bool {
    &&& data.len() >= 46
    &&& data[0] <= 1
    &&& data[41] <= 1
    &&& data.len() >= 70 + stored_uri_len(data)
    &&& valid_utf8(data.subrange(46, 46 + stored_uri_len(data)))
}

/// Relies on std's `String::from_utf8`: it succeeds exactly on valid UTF-8,
/// and the string then holds the characters that the bytes encode.
#[verifier::external_body]
fn string_from_utf8(bytes: Vec<u8>) -> (r: Option<String>)
    ensures
        r is Some <==> valid_utf8(bytes@),
        r matches Some(s) ==> s@ == decode_utf8(bytes@),
{
    String::from_utf8(bytes).ok()
}

fn read_address(data: &[u8], start: usize) -> (r: Address)
    requires
        start + 32 <= data@.len(),
    ensures
        r@ == data@.subrange(start as int, start + 32),
{
    assert(data@.len() == data.len());
    let mut bytes = [0u8; 32];
    let mut i: usize = 0;
    while i < 32
        invariant
            i <= 32,
            start + 32 <= data@.len(),
            data@.len() == data.len(),
            bytes@.len() == 32,
            forall|j: int| 0 <= j < i ==> bytes@[j] == data@[start + j],
        decreases 32 - i,
    {
        bytes[i] = data[start + i];
        i = i + 1;
    }
    assert(bytes@ =~= data@.subrange(start as int, start + 32));
    Address { bytes }
}

/// The stored form of a marketplace record.
pub fn encode_marketplace(m: &Marketplace) -> (r: Vec<u8>)
    ensures
        r@.len() == 50,
        marketplace_layout(r@, *m),
{
    let mut out: Vec<u8> = Vec::new();
    out.push(if m.is_initialized { 1 } else { 0 });
    append_bytes(&mut out, m.authority.bytes.as_slice());
    assert(out@.subrange(1, 33) =~= m.authority@);
    out.push(m.fee_percentage);
    let ghost head = out@;
    assert(head.subrange(1, 33) =~= m.authority@);
    write_u64_le(&mut out, m.total_revenue);
    let ghost middle = out@;
    write_u64_le(&mut out, m.total_modules_sold);
    assert(out@.subrange(0, 34) == head);
    assert(out@.subrange(0, 42) == middle);
    assert(out@.subrange(1, 33) =~= head.subrange(1, 33));
    assert(out@[0] == head[0] && out@[33] == head[33]) by {
        assert(out@.subrange(0, 34)[0] == out@[0]);
        assert(out@.subrange(0, 34)[33] == out@[33]);
    }
    assert(out@.subrange(34, 42) =~= middle.subrange(34, 42));
    assert(le_u64_at(middle, 34) == m.total_revenue);
    assert(le_u64_at(out@, 42) == m.total_modules_sold);
    out
}

/// Reads the marketplace record at the start of `data`; bytes after it are
/// ignored.
pub fn decode_marketplace(data: &[u8]) -> (r: Result<Marketplace, MarketError>)
    ensures
        r is Ok <==> (data@.len() >= 50 && data@[0] <= 1),
        r matches Ok(m) ==> marketplace_layout(data@, m),
        r is Err ==> r == Err::<Marketplace, MarketError>(MarketError::MalformedRecord),
{
    if data.len() < MARKETPLACE_LEN || data[0] > 1 {
        return Err(MarketError::MalformedRecord);
    }
    Ok(
        Marketplace {
            is_initialized: data[0] == 1,
            authority: read_address(data, 1),
            fee_percentage: data[33],
            total_revenue: read_u64_le(data, 34),
            total_modules_sold: read_u64_le(data, 42),
        },
    )
}

/// Two records that both fit one stored form are the same record.
pub proof fn lemma_marketplace_layout_unique(data: Seq<u8>, a: Marketplace, b: Marketplace)
    requires
        marketplace_layout(data, a),
        marketplace_layout(data, b),
    ensures
        a.is_initialized == b.is_initialized,
        a.authority@ == b.authority@,
        a.fee_percentage == b.fee_percentage,
        a.total_revenue == b.total_revenue,
        a.total_modules_sold == b.total_modules_sold,
{
}

proof fn lemma_pow256_four()
    ensures
        pow256(4) == 0x1_0000_0000,
{
    reveal_with_fuel(pow256, 5);
}

/// The stored form of a module record. The locator's UTF-8 length must fit
/// the 4-byte length field.
pub fn encode_module(m: &Module) -> (r: Vec<u8>)
    requires
        encode_utf8(m.uri@).len() <= u32::MAX,
    ensures
        r@.len() == 70 + encode_utf8(m.uri@).len(),
        module_layout(r@, *m),
{
    let ghost uri = encode_utf8(m.uri@);
    let ghost n = uri.len() as int;
    let mut out: Vec<u8> = Vec::new();
    out.push(if m.is_initialized { 1 } else { 0 });
    append_bytes(&mut out, m.creator.bytes.as_slice());
    let ghost s1 = out@;
    assert(s1.subrange(1, 33) =~= m.creator@);
    write_u64_le(&mut out, m.price);
    let ghost priced = out@;
    out.push(if m.is_free_issuance { 1 } else { 0 });
    let ghost s2 = out@;
    assert(s2.subrange(33, 41) =~= priced.subrange(33, 41));
    let uri_bytes: &[u8] = m.uri.as_str().as_bytes();
    assert(uri_bytes@ == uri);
    proof {
        lemma_pow256_four();
    }
    write_le(&mut out, uri_bytes.len() as u64, 4);
    let ghost sized = out@;
    append_bytes(&mut out, uri_bytes);
    assert(out@.subrange(42, 46) =~= sized.subrange(42, 46));
    let ghost s3 = out@;
    write_u64_le(&mut out, m.total_sales);
    let ghost s4 = out@;
    write_u64_le(&mut out, m.total_revenue);
    let ghost s5 = out@;
    write_u64_le(&mut out, m.collected_revenue);
    proof {
        assert(s2.subrange(0, 33) == s1);
        assert(s2.subrange(1, 33) =~= s1.subrange(1, 33));
        assert(s2[0] == s1[0]) by {
            assert(s2.subrange(0, 33)[0] == s2[0]);
        }
        assert(s2.subrange(33, 41) =~= s2.subrange(0, 41).subrange(33, 41));
        assert(s3.subrange(0, 42) =~= s2);
        assert(s4.subrange(0, 46 + n) == s3);
        assert(s5.subrange(0, 54 + n) == s4);
        assert(out@.subrange(0, 62 + n) == s5);
        assert(out@.subrange(0, 54 + n) =~= s4) by {
            assert(out@.subrange(0, 54 + n) =~= s5.subrange(0, 54 + n));
        }
        assert(out@.subrange(54 + n, 62 + n) =~= s5.subrange(54 + n, 62 + n));
        assert(out@.subrange(0, 42) =~= s2) by {
            assert(out@.subrange(0, 42) =~= s4.subrange(0, 46 + n).subrange(0, 42));
        }
        assert(out@.subrange(1, 33) =~= s2.subrange(1, 33));
        assert(out@[0] == s2[0] && out@[41] == s2[41]) by {
            assert(out@.subrange(0, 42)[0] == out@[0]);
            assert(out@.subrange(0, 42)[41] == out@[41]);
        }
        assert(out@.subrange(33, 41) =~= s2.subrange(33, 41));
        assert(out@.subrange(42, 46) =~= s3.subrange(42, 46));
        assert(out@.subrange(46, 46 + n) =~= s3.subrange(46, 46 + n));
        assert(s3.subrange(46, 46 + n) =~= uri);
        assert(out@.subrange(46 + n, 54 + n) =~= s4.subrange(46 + n, 54 + n));
    }
    out
}

/// Reads the module record at the start of `data`; bytes after it are
/// ignored.
pub fn decode_module(data: &[u8]) -> (r: Result<Module, MarketError>)
    ensures
        r is Ok <==> module_readable(data@),
        r matches Ok(m) ==> module_layout(data@, m),
        r is Err ==> r == Err::<Module, MarketError>(MarketError::MalformedRecord),
{
    if data.len() < MODULE_BASE_LEN || data[0] > 1 || data[41] > 1 {
        return Err(MarketError::MalformedRecord);
    }
    let n = read_le(data, 42, 4);
    let room: usize = data.len() - MODULE_BASE_LEN;
    if n > room as u64 {
        return Err(MarketError::MalformedRecord);
    }
    let n = n as usize;
    let uri_bytes = copy_bytes(data, 46, n);
    let uri = match string_from_utf8(uri_bytes) {
        Some(s) => s,
        None => return Err(MarketError::MalformedRecord),
    };
    Ok(
        Module {
            is_initialized: data[0] == 1,
            creator: read_address(data, 1),
            price: read_u64_le(data, 33),
            is_free_issuance: data[41] == 1,
            uri,
            total_sales: read_u64_le(data, 46 + n),
            total_revenue: read_u64_le(data, 54 + n),
            collected_revenue: read_u64_le(data, 62 + n),
        },
    )
}

/// Two records that both fit one stored form are the same record.
pub proof fn lemma_module_layout_unique(data: Seq<u8>, a: Module, b: Module)
    requires
        module_layout(data, a),
        module_layout(data, b),
    ensures
        a.is_initialized == b.is_initialized,
        a.creator@ == b.creator@,
        a.price == b.price,
        a.is_free_issuance == b.is_free_issuance,
        a.uri@ == b.uri@,
        a.total_sales == b.total_sales,
        a.total_revenue == b.total_revenue,
        a.collected_revenue == b.collected_revenue,
{
    let n = stored_uri_len(data);
    assert(encode_utf8(a.uri@) == data.subrange(46, 46 + n));
    assert(decode_utf8(encode_utf8(a.uri@)) == a.uri@);
    assert(decode_utf8(encode_utf8(b.uri@)) == b.uri@);
}

} // verus!
