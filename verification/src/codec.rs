//! The stored form of a record.
//!
//! A record is stored as a header of fixed length followed by its three texts
//! in UTF-8. The header holds, in order: the identifier, the price, the
//! creation time and the time of the last update, each as eight bytes, least
//! significant first; one byte for the availability and one that tells
//! whether the record was ever updated; and the byte lengths of the name, the
//! description and the seller, eight bytes each.

use crate::product::{PayloadView, ProductPayload, ProductView, VeganProduct};
use crate::stable::MAX_RECORD_BYTES;
use crate::text::text_from_utf8;
use vstd::bytes::*;
use vstd::prelude::*;
use vstd::slice::{slice_subrange, slice_to_vec};
use vstd::utf8::*;

verus! {

/// The length of the header of a stored record.
pub const HEADER_BYTES: usize = 58;

/// The byte that stands for a truth value.
pub open spec fn flag(b: bool) -> u8 {
    if b {
        1u8
    } else {
        0u8
    }
}

/// The time written into the header for the last update: zero where there
/// was none.
pub open spec fn stamp(updated_at: Option<u64>) -> u64 {
    match updated_at {
        Some(at) => at,
        None => 0,
    }
}

/// The header of the stored form of `p`.
pub open spec fn header_bytes(p: ProductView) -> Seq<u8> {
    spec_u64_to_le_bytes(p.id) + spec_u64_to_le_bytes(p.price) + spec_u64_to_le_bytes(p.created_at)
        + spec_u64_to_le_bytes(stamp(p.updated_at)) + seq![
        flag(p.availability),
        flag(p.updated_at is Some),
    ] + spec_u64_to_le_bytes(encode_utf8(p.name).len() as u64) + spec_u64_to_le_bytes(
        encode_utf8(p.description).len() as u64,
    ) + spec_u64_to_le_bytes(encode_utf8(p.seller).len() as u64)
}

/// The stored form of `p`.
pub open spec fn record_bytes(p: ProductView) -> Seq<u8> {
    header_bytes(p) + encode_utf8(p.name) + encode_utf8(p.description) + encode_utf8(p.seller)
}

/// The number of bytes that a record with these three texts takes.
pub open spec fn stored_len(name: Seq<char>, description: Seq<char>, seller: Seq<char>) -> nat {
    HEADER_BYTES as nat + encode_utf8(name).len() + encode_utf8(description).len() + encode_utf8(
        seller,
    ).len()
}

impl ProductView {
    /// Whether the stored form of the record is within the limit for one
    /// record.
    pub open spec fn fits(self) -> bool {
        stored_len(self.name, self.description, self.seller) <= MAX_RECORD_BYTES
    }
}

impl PayloadView {
    /// Whether a record with the texts of this payload is within the limit
    /// for one record.
    pub open spec fn fits(self) -> bool {
        stored_len(self.name, self.description, self.seller) <= MAX_RECORD_BYTES
    }
}

/// The record that `bytes` is the stored form of, if there is one.
pub open spec fn record_of(bytes: Seq<u8>) -> Option<ProductView> {
    if exists|p: ProductView| record_bytes(p) == bytes {
        Some(choose|p: ProductView| record_bytes(p) == bytes)
    } else {
        None
    }
}

/// `bytes` cut where the stored form of `p` has its fields, each piece being
/// that field's form.
spec fn laid_out(bytes: Seq<u8>, p: ProductView) -> bool {
    let name = encode_utf8(p.name);
    let description = encode_utf8(p.description);
    let seller = encode_utf8(p.seller);
    let texts = HEADER_BYTES as int;
    &&& bytes.len() == texts + name.len() + description.len() + seller.len()
    &&& bytes.subrange(0, 8) == spec_u64_to_le_bytes(p.id)
    &&& bytes.subrange(8, 16) == spec_u64_to_le_bytes(p.price)
    &&& bytes.subrange(16, 24) == spec_u64_to_le_bytes(p.created_at)
    &&& bytes.subrange(24, 32) == spec_u64_to_le_bytes(stamp(p.updated_at))
    &&& bytes[32] == flag(p.availability)
    &&& bytes[33] == flag(p.updated_at is Some)
    &&& bytes.subrange(34, 42) == spec_u64_to_le_bytes(name.len() as u64)
    &&& bytes.subrange(42, 50) == spec_u64_to_le_bytes(description.len() as u64)
    &&& bytes.subrange(50, 58) == spec_u64_to_le_bytes(seller.len() as u64)
    &&& bytes.subrange(texts, texts + name.len()) == name
    &&& bytes.subrange(texts + name.len(), texts + name.len() + description.len()) == description
    &&& bytes.subrange(texts + name.len() + description.len(), bytes.len() as int) == seller
}

proof fn lemma_laid_out(bytes: Seq<u8>, p: ProductView)
    ensures
        laid_out(bytes, p) <==> bytes == record_bytes(p),
{
    lemma_auto_spec_u64_to_from_le_bytes();
    let name = encode_utf8(p.name);
    let description = encode_utf8(p.description);
    let seller = encode_utf8(p.seller);
    let a = spec_u64_to_le_bytes(p.id);
    let b = spec_u64_to_le_bytes(p.price);
    let c = spec_u64_to_le_bytes(p.created_at);
    let d = spec_u64_to_le_bytes(stamp(p.updated_at));
    let e = seq![flag(p.availability), flag(p.updated_at is Some)];
    let f = spec_u64_to_le_bytes(name.len() as u64);
    let g = spec_u64_to_le_bytes(description.len() as u64);
    let h = spec_u64_to_le_bytes(seller.len() as u64);
    let whole = record_bytes(p);
    let n: int = name.len() as int;
    let m: int = description.len() as int;
    assert(whole == a + b + c + d + e + f + g + h + name + description + seller);
    assert(whole.len() == 58 + name.len() + description.len() + seller.len());
    assert(whole.subrange(0, 8) =~= a);
    assert(whole.subrange(8, 16) =~= b);
    assert(whole.subrange(16, 24) =~= c);
    assert(whole.subrange(24, 32) =~= d);
    assert(whole[32] == e[0]);
    assert(whole[33] == e[1]);
    assert(whole.subrange(34, 42) =~= f);
    assert(whole.subrange(42, 50) =~= g);
    assert(whole.subrange(50, 58) =~= h);
    assert(whole.subrange(58, 58 + n) =~= name);
    assert(whole.subrange(58 + n, 58 + n + m) =~= description);
    assert(whole.subrange(58 + n + m, whole.len() as int) =~= seller);
    if laid_out(bytes, p) {
        assert(bytes =~= whole) by {
            assert forall|i: int| 0 <= i < bytes.len() implies bytes[i] == whole[i] by {
                if i < 8 {
                    assert(bytes[i] == bytes.subrange(0, 8)[i]);
                    assert(whole[i] == whole.subrange(0, 8)[i]);
                } else if i < 16 {
                    assert(bytes[i] == bytes.subrange(8, 16)[i - 8]);
                    assert(whole[i] == whole.subrange(8, 16)[i - 8]);
                } else if i < 24 {
                    assert(bytes[i] == bytes.subrange(16, 24)[i - 16]);
                    assert(whole[i] == whole.subrange(16, 24)[i - 16]);
                } else if i < 32 {
                    assert(bytes[i] == bytes.subrange(24, 32)[i - 24]);
                    assert(whole[i] == whole.subrange(24, 32)[i - 24]);
                } else if i < 34 {
                } else if i < 42 {
                    assert(bytes[i] == bytes.subrange(34, 42)[i - 34]);
                    assert(whole[i] == whole.subrange(34, 42)[i - 34]);
                } else if i < 50 {
                    assert(bytes[i] == bytes.subrange(42, 50)[i - 42]);
                    assert(whole[i] == whole.subrange(42, 50)[i - 42]);
                } else if i < 58 {
                    assert(bytes[i] == bytes.subrange(50, 58)[i - 50]);
                    assert(whole[i] == whole.subrange(50, 58)[i - 50]);
                } else if i < 58 + n {
                    assert(bytes[i] == bytes.subrange(58, 58 + n)[i - 58]);
                    assert(whole[i] == whole.subrange(58, 58 + n)[i - 58]);
                } else if i < 58 + n + m {
                    assert(bytes[i] == bytes.subrange(58 + n, 58 + n + m)[i - 58 - n]);
                    assert(whole[i] == whole.subrange(58 + n, 58 + n + m)[i - 58 - n]);
                } else {
                    assert(bytes[i] == bytes.subrange(58 + n + m, bytes.len() as int)[i - 58 - n - m]);
                    assert(whole[i] == whole.subrange(58 + n + m, whole.len() as int)[i - 58 - n - m]);
                }
            }
        }
    }
}

/// The stored form of a record has at least a header, and as many bytes
/// beyond it as the three texts take.
pub proof fn lemma_record_len(p: ProductView)
    ensures
        record_bytes(p).len() == stored_len(p.name, p.description, p.seller),
{
    lemma_laid_out(record_bytes(p), p);
}

/// Two records with the same stored form are the same record, as long as the
/// form is short enough for its lengths to be written in the header.
pub proof fn lemma_record_bytes_injective(p: ProductView, q: ProductView)
    requires
        record_bytes(p) == record_bytes(q),
        record_bytes(p).len() <= u64::MAX,
    ensures
        p == q,
{
    broadcast use encode_utf8_decode_utf8;

    lemma_auto_spec_u64_to_from_le_bytes();
    let bytes = record_bytes(p);
    lemma_laid_out(bytes, p);
    lemma_laid_out(bytes, q);
    assert(p.id == spec_u64_from_le_bytes(spec_u64_to_le_bytes(p.id)));
    assert(q.id == spec_u64_from_le_bytes(spec_u64_to_le_bytes(q.id)));
    assert(p.price == spec_u64_from_le_bytes(spec_u64_to_le_bytes(p.price)));
    assert(q.price == spec_u64_from_le_bytes(spec_u64_to_le_bytes(q.price)));
    assert(p.created_at == spec_u64_from_le_bytes(spec_u64_to_le_bytes(p.created_at)));
    assert(q.created_at == spec_u64_from_le_bytes(spec_u64_to_le_bytes(q.created_at)));
    assert(stamp(p.updated_at) == spec_u64_from_le_bytes(
        spec_u64_to_le_bytes(stamp(p.updated_at)),
    ));
    assert(stamp(q.updated_at) == spec_u64_from_le_bytes(
        spec_u64_to_le_bytes(stamp(q.updated_at)),
    ));
    assert(p.updated_at == q.updated_at);
    let pn = encode_utf8(p.name).len() as u64;
    let qn = encode_utf8(q.name).len() as u64;
    assert(pn == spec_u64_from_le_bytes(spec_u64_to_le_bytes(pn)));
    assert(qn == spec_u64_from_le_bytes(spec_u64_to_le_bytes(qn)));
    let pd = encode_utf8(p.description).len() as u64;
    let qd = encode_utf8(q.description).len() as u64;
    assert(pd == spec_u64_from_le_bytes(spec_u64_to_le_bytes(pd)));
    assert(qd == spec_u64_from_le_bytes(spec_u64_to_le_bytes(qd)));
    assert(encode_utf8(p.name) == encode_utf8(q.name));
    assert(encode_utf8(p.description) == encode_utf8(q.description));
    assert(encode_utf8(p.seller) == encode_utf8(q.seller));
    assert(p.name == decode_utf8(encode_utf8(p.name)));
    assert(q.name == decode_utf8(encode_utf8(q.name)));
    assert(p.description == decode_utf8(encode_utf8(p.description)));
    assert(q.description == decode_utf8(encode_utf8(q.description)));
    assert(p.seller == decode_utf8(encode_utf8(p.seller)));
    assert(q.seller == decode_utf8(encode_utf8(q.seller)));
}

/// Reading back the stored form of a record gives that record.
pub proof fn lemma_record_of_bytes(p: ProductView)
    requires
        record_bytes(p).len() <= u64::MAX,
    ensures
        record_of(record_bytes(p)) == Some(p),
{
    let q = choose|q: ProductView| record_bytes(q) == record_bytes(p);
    lemma_record_bytes_injective(q, p);
}

fn put_bytes(out: &mut Vec<u8>, src: &[u8])
    ensures
        final(out)@ == old(out)@ + src@,
{
    let mut i: usize = 0;
    while i < src.len()
        invariant
            i <= src@.len(),
            out@ == old(out)@ + src@.subrange(0, i as int),
        decreases src@.len() - i,
    {
        out.push(src[i]);
        i += 1;
    }
    proof {
        assert(src@.subrange(0, i as int) =~= src@);
    }
}

fn put_u64(out: &mut Vec<u8>, value: u64)
    ensures
        final(out)@ == old(out)@ + spec_u64_to_le_bytes(value),
{
    let bytes = u64_to_le_bytes(value);
    put_bytes(out, bytes.as_slice());
}

fn get_u64(bytes: &[u8], at: usize) -> (value: u64)
    requires
        at + 8 <= bytes@.len(),
    ensures
        value == spec_u64_from_le_bytes(bytes@.subrange(at as int, at + 8)),
        spec_u64_to_le_bytes(value) == bytes@.subrange(at as int, at + 8),
{
    proof {
        lemma_auto_spec_u64_to_from_le_bytes();
    }
    let len: usize = bytes.len();
    assert(at + 8 <= len);
    u64_from_le_bytes(slice_subrange(bytes, at, at + 8))
}

fn get_text(bytes: &[u8], from: usize, to: usize) -> (text: Option<String>)
    requires
        from <= to <= bytes@.len(),
    ensures
        text is Some <==> valid_utf8(bytes@.subrange(from as int, to as int)),
        text matches Some(s) ==> encode_utf8(s@) == bytes@.subrange(from as int, to as int),
{
    text_from_utf8(slice_to_vec(slice_subrange(bytes, from, to)))
}

fn flag_byte(b: bool) -> (byte: u8)
    ensures
        byte == flag(b),
{
    if b {
        1
    } else {
        0
    }
}

/// The number of bytes that a record with these three texts takes, or `None`
/// where that is more than one record may take.
fn stored_len_within_limit(name: &String, description: &String, seller: &String) -> (len: Option<
    usize,
>)
    ensures
        len matches Some(n) ==> n == stored_len(name@, description@, seller@) && n
            <= MAX_RECORD_BYTES,
        len is None ==> stored_len(name@, description@, seller@) > MAX_RECORD_BYTES,
{
    let texts: usize = MAX_RECORD_BYTES - HEADER_BYTES;
    let name_len: usize = name.as_str().as_bytes().len();
    if name_len > texts {
        return None;
    }
    let description_len: usize = description.as_str().as_bytes().len();
    if description_len > texts - name_len {
        return None;
    }
    let seller_len: usize = seller.as_str().as_bytes().len();
    if seller_len > texts - name_len - description_len {
        return None;
    }
    Some(HEADER_BYTES + name_len + description_len + seller_len)
}

impl ProductPayload {
    /// Whether a record made from this payload is within the limit for one
    /// record.
    pub fn fits(&self) -> (within: bool)
        ensures
            within == self@.fits(),
    {
        stored_len_within_limit(&self.name, &self.description, &self.seller).is_some()
    }
}

impl VeganProduct {
    /// Whether the stored form of this record is within the limit for one
    /// record.
    pub fn fits(&self) -> (within: bool)
        ensures
            within == self@.fits(),
    {
        stored_len_within_limit(&self.name, &self.description, &self.seller).is_some()
    }

    /// The stored form of the record.
    pub fn to_bytes(&self) -> (bytes: Vec<u8>)
        ensures
            bytes@ == record_bytes(self@),
    {
        let name = self.name.as_str().as_bytes();
        let description = self.description.as_str().as_bytes();
        let seller = self.seller.as_str().as_bytes();
        let stamped: u64 = match self.updated_at {
            Some(at) => at,
            None => 0,
        };
        let mut out: Vec<u8> = Vec::new();
        put_u64(&mut out, self.id);
        put_u64(&mut out, self.price);
        put_u64(&mut out, self.created_at);
        put_u64(&mut out, stamped);
        out.push(flag_byte(self.availability));
        out.push(flag_byte(self.updated_at.is_some()));
        put_u64(&mut out, name.len() as u64);
        put_u64(&mut out, description.len() as u64);
        put_u64(&mut out, seller.len() as u64);
        put_bytes(&mut out, name);
        put_bytes(&mut out, description);
        put_bytes(&mut out, seller);
        proof {
            assert(out@ =~= record_bytes(self@));
        }
        out
    }

    /// The record that `bytes` is the stored form of; `None` where it is the
    /// stored form of no record.
    pub fn from_bytes(bytes: &[u8]) -> (product: Option<VeganProduct>)
        ensures
            product matches Some(p) ==> record_bytes(p@) == bytes@,
            product is None ==> forall|p: ProductView| record_bytes(p) != bytes@,
            product matches Some(p) ==> record_of(bytes@) == Some(p@),
            product is None ==> record_of(bytes@) is None,
    {
        broadcast use encode_utf8_valid_utf8;

        proof {
            lemma_auto_spec_u64_to_from_le_bytes();
            assert forall|p: ProductView| #[trigger] record_bytes(p) == bytes@ implies laid_out(
                bytes@,
                p,
            ) by {
                lemma_laid_out(bytes@, p);
            }
        }
        if bytes.len() < HEADER_BYTES {
            return None;
        }
        let id: u64 = get_u64(bytes, 0);
        let price: u64 = get_u64(bytes, 8);
        let created_at: u64 = get_u64(bytes, 16);
        let stamped: u64 = get_u64(bytes, 24);
        let available: u8 = bytes[32];
        let updated: u8 = bytes[33];
        if available > 1 || updated > 1 {
            return None;
        }
        if updated == 0 && stamped != 0 {
            return None;
        }
        let name_len: u64 = get_u64(bytes, 34);
        let description_len: u64 = get_u64(bytes, 42);
        let seller_len: u64 = get_u64(bytes, 50);
        let texts: usize = bytes.len() - HEADER_BYTES;
        if name_len > texts as u64 {
            return None;
        }
        let after_name: usize = texts - name_len as usize;
        if description_len > after_name as u64 {
            return None;
        }
        let after_description: usize = after_name - description_len as usize;
        if seller_len != after_description as u64 {
            return None;
        }
        let name_at: usize = HEADER_BYTES;
        let description_at: usize = name_at + name_len as usize;
        let seller_at: usize = description_at + description_len as usize;
        let name = match get_text(bytes, name_at, description_at) {
            Some(text) => text,
            None => {
                return None;
            },
        };
        let description = match get_text(bytes, description_at, seller_at) {
            Some(text) => text,
            None => {
                return None;
            },
        };
        let seller = match get_text(bytes, seller_at, bytes.len()) {
            Some(text) => text,
            None => {
                return None;
            },
        };
        let product = VeganProduct {
            id,
            name,
            description,
            price,
            seller,
            availability: available == 1,
            created_at,
            updated_at: if updated == 1 {
                Some(stamped)
            } else {
                None
            },
        };
        proof {
            assert(laid_out(bytes@, product@));
            lemma_laid_out(bytes@, product@);
            lemma_record_of_bytes(product@);
        }
        Some(product)
    }
}

} // verus!
