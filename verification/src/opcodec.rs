//! The stored form of an operation: a record of bytes. The first byte names the kind of
//! operation. Identifiers take 16 bytes and instants 8, the most significant byte first;
//! a text is its length in bytes, as 8 bytes, and then its UTF-8 bytes; an optional
//! text is one byte that says whether the text is there, and then the text.

use crate::bytes::{
    be_bytes, lemma_be_bytes_len, lemma_be_bytes_of_value, lemma_be_value_of_bytes,
    lemma_pow256_limits, pow256, push_be, read_be,
};
use crate::ids::{uuid_bytes, Uuid};
use crate::operation::{text_view, Operation, OperationView};
use vstd::prelude::*;
use vstd::string::StrSliceExecFns;
use vstd::utf8::{encode_utf8, encode_utf8_decode_utf8, encode_utf8_valid_utf8, valid_utf8};

verus! {

/// The first byte of a stored `Create`.
pub const TAG_CREATE: u8 = 1;

/// The first byte of a stored `Delete`.
pub const TAG_DELETE: u8 = 2;

/// The first byte of a stored `Update`.
pub const TAG_UPDATE: u8 = 3;

/// The first byte of a stored `UndoPoint`, which has no other.
pub const TAG_UNDO_POINT: u8 = 4;

/// The length of a text in bytes can be written in 8 bytes. Every `String` meets this.
pub open spec fn text_fits(text: Seq<char>) -> bool {
    encode_utf8(text).len() < pow256(8)
}

/// The stored form of a text.
pub open spec fn text_bytes(text: Seq<char>) -> Seq<u8> {
    be_bytes(encode_utf8(text).len(), 8) + encode_utf8(text)
}

/// An optional text is absent, or its length can be written in 8 bytes.
pub open spec fn optional_text_fits(text: Option<Seq<char>>) -> bool {
    match text {
        Some(t) => text_fits(t),
        None => true,
    }
}

/// The stored form of an optional text.
pub open spec fn optional_text_bytes(text: Option<Seq<char>>) -> Seq<u8> {
    match text {
        Some(t) => seq![1u8] + text_bytes(t),
        None => seq![0u8],
    }
}

/// The stored form of an instant.
pub open spec fn timestamp_bytes(timestamp: i64) -> Seq<u8> {
    be_bytes((timestamp as u64) as nat, 8)
}

/// The texts of an operation can be stored. Every `Operation` meets this.
pub open spec fn operation_fits(op: OperationView) -> bool {
    match op {
        OperationView::Update { property, old_value, value, .. } => {
            text_fits(property) && optional_text_fits(old_value) && optional_text_fits(value)
        },
        _ => true,
    }
}

/// The stored form of an operation.
pub open spec fn operation_bytes(op: OperationView) -> Seq<u8> {
    match op {
        OperationView::Create { uuid } => seq![TAG_CREATE] + uuid_bytes(uuid),
        OperationView::Delete { uuid } => seq![TAG_DELETE] + uuid_bytes(uuid),
        OperationView::Update { uuid, property, old_value, value, timestamp } => {
            seq![TAG_UPDATE] + uuid_bytes(uuid) + timestamp_bytes(timestamp) + text_bytes(property)
                + optional_text_bytes(old_value) + optional_text_bytes(value)
        },
        OperationView::UndoPoint => seq![TAG_UNDO_POINT],
    }
}

/// `bytes` is the stored form of `op`.
pub open spec fn stores(bytes: Seq<u8>, op: OperationView) -> bool {
    operation_fits(op) && operation_bytes(op) == bytes
}

/// The operation that `bytes` is the stored form of, if it is that of any.
pub open spec fn operation_of_bytes(bytes: Seq<u8>) -> Option<OperationView> {
    if exists|op: OperationView| stores(bytes, op) {
        Some(choose|op: OperationView| stores(bytes, op))
    } else {
        None
    }
}

/// `head` is what `bytes` begins with.
pub open spec fn begins_with(bytes: Seq<u8>, head: Seq<u8>) -> bool {
    head.len() <= bytes.len() && bytes.subrange(0, head.len() as int) == head
}

/// Two numbers below `256^n` with the same `n` digits are the same number.
proof fn lemma_be_bytes_injective(a: nat, b: nat, n: nat)
    requires
        a < pow256(n),
        b < pow256(n),
        be_bytes(a, n) == be_bytes(b, n),
    ensures
        a == b,
{
    lemma_be_value_of_bytes(a, n);
    lemma_be_value_of_bytes(b, n);
}

/// Two texts with the same UTF-8 bytes are the same text.
proof fn lemma_utf8_injective(a: Seq<char>, b: Seq<char>)
    requires
        encode_utf8(a) == encode_utf8(b),
    ensures
        a == b,
{
    encode_utf8_decode_utf8(a);
    encode_utf8_decode_utf8(b);
}

/// The stored form of a text is 8 bytes longer than the text's UTF-8 bytes.
proof fn lemma_text_bytes_len(text: Seq<char>)
    ensures
        text_bytes(text).len() == 8 + encode_utf8(text).len(),
        text_bytes(text).subrange(0, 8) == be_bytes(encode_utf8(text).len(), 8),
        text_bytes(text).subrange(8, text_bytes(text).len() as int) == encode_utf8(text),
{
    lemma_be_bytes_len(encode_utf8(text).len(), 8);
    assert(text_bytes(text).subrange(0, 8) =~= be_bytes(encode_utf8(text).len(), 8));
    assert(text_bytes(text).subrange(8, text_bytes(text).len() as int) =~= encode_utf8(text));
}

/// Bytes begin with the stored form of at most one text.
proof fn lemma_text_unique(bytes: Seq<u8>, a: Seq<char>, b: Seq<char>)
    requires
        text_fits(a),
        text_fits(b),
        begins_with(bytes, text_bytes(a)),
        begins_with(bytes, text_bytes(b)),
    ensures
        a == b,
{
    lemma_text_bytes_len(a);
    lemma_text_bytes_len(b);
    let la = encode_utf8(a).len() as int;
    let lb = encode_utf8(b).len() as int;
    assert(be_bytes(la as nat, 8) =~= bytes.subrange(0, 8)) by {
        assert(text_bytes(a).subrange(0, 8) =~= bytes.subrange(0, text_bytes(a).len() as int).subrange(
            0,
            8,
        ));
    }
    assert(be_bytes(lb as nat, 8) =~= bytes.subrange(0, 8)) by {
        assert(text_bytes(b).subrange(0, 8) =~= bytes.subrange(0, text_bytes(b).len() as int).subrange(
            0,
            8,
        ));
    }
    lemma_be_bytes_injective(la as nat, lb as nat, 8);
    assert(encode_utf8(a) =~= bytes.subrange(8, 8 + la)) by {
        assert(text_bytes(a).subrange(8, 8 + la) =~= bytes.subrange(
            0,
            text_bytes(a).len() as int,
        ).subrange(8, 8 + la));
    }
    assert(encode_utf8(b) =~= bytes.subrange(8, 8 + lb)) by {
        assert(text_bytes(b).subrange(8, 8 + lb) =~= bytes.subrange(
            0,
            text_bytes(b).len() as int,
        ).subrange(8, 8 + lb));
    }
    lemma_utf8_injective(a, b);
}

/// Bytes begin with the stored form of at most one optional text.
proof fn lemma_optional_text_unique(bytes: Seq<u8>, a: Option<Seq<char>>, b: Option<Seq<char>>)
    requires
        optional_text_fits(a),
        optional_text_fits(b),
        begins_with(bytes, optional_text_bytes(a)),
        begins_with(bytes, optional_text_bytes(b)),
    ensures
        a == b,
{
    let fa = optional_text_bytes(a);
    let fb = optional_text_bytes(b);
    assert(fa[0] == bytes.subrange(0, fa.len() as int)[0]);
    assert(fb[0] == bytes.subrange(0, fb.len() as int)[0]);
    match (a, b) {
        (Some(ta), Some(tb)) => {
            let tail = bytes.subrange(1, bytes.len() as int);
            assert(tail.subrange(0, text_bytes(ta).len() as int) =~= fa.subrange(
                1,
                fa.len() as int,
            )) by {
                assert(fa =~= bytes.subrange(0, fa.len() as int));
            }
            assert(fa.subrange(1, fa.len() as int) =~= text_bytes(ta));
            assert(tail.subrange(0, text_bytes(tb).len() as int) =~= fb.subrange(
                1,
                fb.len() as int,
            )) by {
                assert(fb =~= bytes.subrange(0, fb.len() as int));
            }
            assert(fb.subrange(1, fb.len() as int) =~= text_bytes(tb));
            lemma_text_unique(tail, ta, tb);
        },
        _ => {},
    }
}

/// Two instants with the same stored form are the same instant.
proof fn lemma_timestamp_unique(a: i64, b: i64)
    requires
        timestamp_bytes(a) == timestamp_bytes(b),
    ensures
        a == b,
{
    lemma_pow256_limits();
    lemma_be_bytes_injective((a as u64) as nat, (b as u64) as nat, 8);
    assert((a as u64) == (b as u64) ==> a == b) by (bit_vector);
}

/// Two identifiers with the same stored form are the same identifier.
proof fn lemma_uuid_unique(a: Uuid, b: Uuid)
    requires
        uuid_bytes(a) == uuid_bytes(b),
    ensures
        a == b,
{
    lemma_pow256_limits();
    lemma_be_bytes_injective(a as nat, b as nat, 16);
}

/// The parts of the stored form of an `Update`, and where each begins.
proof fn lemma_update_parts(
    uuid: Uuid,
    property: Seq<char>,
    old_value: Option<Seq<char>>,
    value: Option<Seq<char>>,
    timestamp: i64,
)
    ensures
        ({
            let bytes = operation_bytes(
                OperationView::Update { uuid, property, old_value, value, timestamp },
            );
            let p = text_bytes(property).len() as int;
            let o = optional_text_bytes(old_value).len() as int;
            let v = optional_text_bytes(value).len() as int;
            &&& bytes.len() == 25 + p + o + v
            &&& bytes[0] == TAG_UPDATE
            &&& bytes.subrange(1, 17) == uuid_bytes(uuid)
            &&& bytes.subrange(17, 25) == timestamp_bytes(timestamp)
            &&& bytes.subrange(25, 25 + p) == text_bytes(property)
            &&& bytes.subrange(25 + p, 25 + p + o) == optional_text_bytes(old_value)
            &&& bytes.subrange(25 + p + o, 25 + p + o + v) == optional_text_bytes(value)
        }),
{
    let bytes = operation_bytes(
        OperationView::Update { uuid, property, old_value, value, timestamp },
    );
    let p = text_bytes(property).len() as int;
    let o = optional_text_bytes(old_value).len() as int;
    let v = optional_text_bytes(value).len() as int;
    lemma_be_bytes_len(uuid as nat, 16);
    lemma_be_bytes_len((timestamp as u64) as nat, 8);
    assert(bytes.subrange(1, 17) =~= uuid_bytes(uuid));
    assert(bytes.subrange(17, 25) =~= timestamp_bytes(timestamp));
    assert(bytes.subrange(25, 25 + p) =~= text_bytes(property));
    assert(bytes.subrange(25 + p, 25 + p + o) =~= optional_text_bytes(old_value));
    assert(bytes.subrange(25 + p + o, 25 + p + o + v) =~= optional_text_bytes(value));
}

/// No two operations have the same stored form.
pub proof fn lemma_stored_form_unique(a: OperationView, b: OperationView)
    requires
        operation_fits(a),
        operation_fits(b),
        operation_bytes(a) == operation_bytes(b),
    ensures
        a == b,
{
    let bytes = operation_bytes(a);
    assert(operation_bytes(a)[0] == operation_bytes(b)[0]);
    match (a, b) {
        (OperationView::Create { uuid: ua }, OperationView::Create { uuid: ub }) => {
            assert(uuid_bytes(ua) =~= operation_bytes(a).subrange(1, bytes.len() as int));
            assert(uuid_bytes(ub) =~= operation_bytes(b).subrange(1, bytes.len() as int));
            lemma_uuid_unique(ua, ub);
        },
        (OperationView::Delete { uuid: ua }, OperationView::Delete { uuid: ub }) => {
            assert(uuid_bytes(ua) =~= operation_bytes(a).subrange(1, bytes.len() as int));
            assert(uuid_bytes(ub) =~= operation_bytes(b).subrange(1, bytes.len() as int));
            lemma_uuid_unique(ua, ub);
        },
        (
            OperationView::Update {
                uuid: ua,
                property: pa,
                old_value: oa,
                value: va,
                timestamp: ta,
            },
            OperationView::Update {
                uuid: ub,
                property: pb,
                old_value: ob,
                value: vb,
                timestamp: tb,
            },
        ) => {
            lemma_update_parts(ua, pa, oa, va, ta);
            lemma_update_parts(ub, pb, ob, vb, tb);
            lemma_uuid_unique(ua, ub);
            lemma_timestamp_unique(ta, tb);
            let rest1 = bytes.subrange(25, bytes.len() as int);
            assert(rest1.subrange(0, text_bytes(pa).len() as int) =~= bytes.subrange(
                25,
                25 + text_bytes(pa).len() as int,
            ));
            assert(rest1.subrange(0, text_bytes(pb).len() as int) =~= bytes.subrange(
                25,
                25 + text_bytes(pb).len() as int,
            ));
            lemma_text_unique(rest1, pa, pb);
            let p = text_bytes(pa).len() as int;
            let rest2 = bytes.subrange(25 + p, bytes.len() as int);
            assert(rest2.subrange(0, optional_text_bytes(oa).len() as int) =~= bytes.subrange(
                25 + p,
                25 + p + optional_text_bytes(oa).len() as int,
            ));
            assert(rest2.subrange(0, optional_text_bytes(ob).len() as int) =~= bytes.subrange(
                25 + p,
                25 + p + optional_text_bytes(ob).len() as int,
            ));
            lemma_optional_text_unique(rest2, oa, ob);
            let o = optional_text_bytes(oa).len() as int;
            let rest3 = bytes.subrange(25 + p + o, bytes.len() as int);
            assert(rest3.subrange(0, optional_text_bytes(va).len() as int) =~= bytes.subrange(
                25 + p + o,
                25 + p + o + optional_text_bytes(va).len() as int,
            ));
            assert(rest3.subrange(0, optional_text_bytes(vb).len() as int) =~= bytes.subrange(
                25 + p + o,
                25 + p + o + optional_text_bytes(vb).len() as int,
            ));
            lemma_optional_text_unique(rest3, va, vb);
        },
        (OperationView::UndoPoint, OperationView::UndoPoint) => {},
        _ => {},
    }
}

/// Reading the stored form of an operation gives the operation back.
pub proof fn lemma_operation_round_trip(op: OperationView)
    requires
        operation_fits(op),
    ensures
        operation_of_bytes(operation_bytes(op)) == Some(op),
{
    let bytes = operation_bytes(op);
    assert(stores(bytes, op));
    let found = choose|found: OperationView| stores(bytes, found);
    lemma_stored_form_unique(found, op);
}

/// What bytes must look like to be the stored form of an `Update`: where each part
/// stands, and what the bytes from there on begin with.
proof fn lemma_update_stored(
    bytes: Seq<u8>,
    uuid: Uuid,
    property: Seq<char>,
    old_value: Option<Seq<char>>,
    value: Option<Seq<char>>,
    timestamp: i64,
)
    requires
        operation_bytes(OperationView::Update { uuid, property, old_value, value, timestamp })
            == bytes,
    ensures
        ({
            let p = text_bytes(property).len() as int;
            let o = optional_text_bytes(old_value).len() as int;
            let v = optional_text_bytes(value).len() as int;
            let end = bytes.len() as int;
            &&& end == 25 + p + o + v
            &&& p >= 8 && o >= 1 && v >= 1
            &&& bytes[0] == TAG_UPDATE
            &&& bytes.subrange(1, 17) == uuid_bytes(uuid)
            &&& bytes.subrange(17, 25) == timestamp_bytes(timestamp)
            &&& begins_with(bytes.subrange(25, end), text_bytes(property))
            &&& begins_with(bytes.subrange(25 + p, end), optional_text_bytes(old_value))
            &&& begins_with(bytes.subrange(25 + p + o, end), optional_text_bytes(value))
        }),
{
    let p = text_bytes(property).len() as int;
    let o = optional_text_bytes(old_value).len() as int;
    let v = optional_text_bytes(value).len() as int;
    let end = bytes.len() as int;
    lemma_update_parts(uuid, property, old_value, value, timestamp);
    lemma_text_bytes_len(property);
    assert(bytes.subrange(25, end).subrange(0, p) =~= bytes.subrange(25, 25 + p));
    assert(bytes.subrange(25 + p, end).subrange(0, o) =~= bytes.subrange(25 + p, 25 + p + o));
    assert(bytes.subrange(25 + p + o, end).subrange(0, v) =~= bytes.subrange(
        25 + p + o,
        25 + p + o + v,
    ));
}

/// `String::from_utf8`: the text with the given UTF-8 bytes; none where the bytes are
/// not UTF-8.
#[verifier::external_body]
fn string_from_utf8(bytes: Vec<u8>) -> (r: Option<String>)
    ensures
        r is Some <==> valid_utf8(bytes@),
        r matches Some(text) ==> encode_utf8(text@) == bytes@,
{
    String::from_utf8(bytes).ok()
}

/// Appends `bytes` to `out`.
fn push_bytes(out: &mut Vec<u8>, bytes: &Vec<u8>)
    ensures
        final(out)@ == old(out)@ + bytes@,
{
    let mut i: usize = 0;
    while i < bytes.len()
        invariant
            i <= bytes.len(),
            out@ == old(out)@ + bytes@.subrange(0, i as int),
        decreases bytes.len() - i,
    {
        out.push(bytes[i]);
        assert(out@ =~= old(out)@ + bytes@.subrange(0, i + 1));
        i = i + 1;
    }
    assert(bytes@.subrange(0, i as int) =~= bytes@);
}

/// The bytes of `bytes` from `start` up to `end`.
fn copy_range(bytes: &Vec<u8>, start: usize, end: usize) -> (r: Vec<u8>)
    requires
        start <= end <= bytes.len(),
    ensures
        r@ == bytes@.subrange(start as int, end as int),
{
    let mut out: Vec<u8> = Vec::new();
    let mut i: usize = start;
    while i < end
        invariant
            start <= i <= end <= bytes.len(),
            out@ == bytes@.subrange(start as int, i as int),
        decreases end - i,
    {
        out.push(bytes[i]);
        assert(out@ =~= bytes@.subrange(start as int, i + 1));
        i = i + 1;
    }
    out
}

/// Appends the stored form of a text.
fn push_text(out: &mut Vec<u8>, text: &str)
    ensures
        final(out)@ == old(out)@ + text_bytes(text@),
        text_fits(text@),
{
    let raw = text.as_bytes_vec();
    proof {
        lemma_pow256_limits();
    }
    push_be(out, raw.len() as u128, 8);
    push_bytes(out, &raw);
    assert(out@ =~= old(out)@ + text_bytes(text@));
}

/// Appends the stored form of an optional text.
fn push_optional_text(out: &mut Vec<u8>, text: &Option<String>)
    ensures
        final(out)@ == old(out)@ + optional_text_bytes(text_view(*text)),
        optional_text_fits(text_view(*text)),
{
    match text {
        Some(t) => {
            out.push(1u8);
            push_text(out, t.as_str());
            assert(out@ =~= old(out)@ + optional_text_bytes(text_view(*text)));
        },
        None => {
            out.push(0u8);
            assert(out@ =~= old(out)@ + optional_text_bytes(text_view(*text)));
        },
    }
}

/// Writes the stored form of an operation.
pub fn encode_operation(op: &Operation) -> (r: Vec<u8>)
    ensures
        stores(r@, op@),
{
    let mut out: Vec<u8> = Vec::new();
    match op {
        Operation::Create { uuid } => {
            out.push(TAG_CREATE);
            push_be(&mut out, *uuid, 16);
            assert(out@ =~= operation_bytes(op@));
        },
        Operation::Delete { uuid } => {
            out.push(TAG_DELETE);
            push_be(&mut out, *uuid, 16);
            assert(out@ =~= operation_bytes(op@));
        },
        Operation::Update { uuid, property, old_value, value, timestamp } => {
            out.push(TAG_UPDATE);
            push_be(&mut out, *uuid, 16);
            push_be(&mut out, (*timestamp as u64) as u128, 8);
            push_text(&mut out, property.as_str());
            push_optional_text(&mut out, old_value);
            push_optional_text(&mut out, value);
            assert(out@ =~= operation_bytes(op@));
        },
        Operation::UndoPoint => {
            out.push(TAG_UNDO_POINT);
            assert(out@ =~= operation_bytes(op@));
        },
    }
    out
}

/// Reads the stored form of a text that begins at `pos`, and says where it ends.
fn read_text(bytes: &Vec<u8>, pos: usize) -> (r: Option<(String, usize)>)
    requires
        pos <= bytes.len(),
    ensures
        r matches Some((text, next)) ==> pos <= next <= bytes.len() && text_fits(text@)
            && bytes@.subrange(pos as int, next as int) == text_bytes(text@),
        r is None ==> forall|t: Seq<char>|
            text_fits(t) ==> !begins_with(
                bytes@.subrange(pos as int, bytes.len() as int),
                #[trigger] text_bytes(t),
            ),
{
    let ghost tail = bytes@.subrange(pos as int, bytes.len() as int);
    if bytes.len() - pos < 8 {
        proof {
            assert forall|t: Seq<char>| text_fits(t) implies !begins_with(
                tail,
                #[trigger] text_bytes(t),
            ) by {
                lemma_text_bytes_len(t);
            }
        }
        return None;
    }
    let n: u128 = read_be(bytes, pos, 8);
    let available: usize = bytes.len() - pos - 8;
    let ghost digits = bytes@.subrange(pos as int, pos + 8);
    proof {
        lemma_be_bytes_of_value(digits);
        lemma_pow256_limits();
        assert(tail.subrange(0, 8) =~= digits);
    }
    if n > available as u128 {
        proof {
            assert forall|t: Seq<char>| text_fits(t) implies !begins_with(
                tail,
                #[trigger] text_bytes(t),
            ) by {
                lemma_text_bytes_len(t);
                if begins_with(tail, text_bytes(t)) {
                    let whole = tail.subrange(0, text_bytes(t).len() as int);
                    assert(whole.subrange(0, 8) =~= tail.subrange(0, 8));
                    lemma_be_bytes_injective(encode_utf8(t).len(), n as nat, 8);
                }
            }
        }
        return None;
    }
    let start: usize = pos + 8;
    let end: usize = start + n as usize;
    let raw = copy_range(bytes, start, end);
    let ghost raw_bytes = raw@;
    proof {
        assert(tail.subrange(8, 8 + n) =~= raw_bytes);
    }
    match string_from_utf8(raw) {
        Some(text) => {
            proof {
                assert(bytes@.subrange(pos as int, end as int) =~= digits + raw_bytes);
            }
            Some((text, end))
        },
        None => {
            proof {
                assert forall|t: Seq<char>| text_fits(t) implies !begins_with(
                    tail,
                    #[trigger] text_bytes(t),
                ) by {
                    lemma_text_bytes_len(t);
                    if begins_with(tail, text_bytes(t)) {
                        let whole = tail.subrange(0, text_bytes(t).len() as int);
                        assert(whole.subrange(0, 8) =~= tail.subrange(0, 8));
                        lemma_be_bytes_injective(encode_utf8(t).len(), n as nat, 8);
                        assert(whole.subrange(8, 8 + n) =~= tail.subrange(8, 8 + n));
                        encode_utf8_valid_utf8(t);
                    }
                }
            }
            None
        },
    }
}

/// Reads the stored form of an optional text that begins at `pos`, and says where it
/// ends.
fn read_optional_text(bytes: &Vec<u8>, pos: usize) -> (r: Option<(Option<String>, usize)>)
    requires
        pos <= bytes.len(),
    ensures
        r matches Some((text, next)) ==> pos <= next <= bytes.len() && optional_text_fits(
            text_view(text),
        ) && bytes@.subrange(pos as int, next as int) == optional_text_bytes(text_view(text)),
        r is None ==> forall|t: Option<Seq<char>>|
            optional_text_fits(t) ==> !begins_with(
                bytes@.subrange(pos as int, bytes.len() as int),
                #[trigger] optional_text_bytes(t),
            ),
{
    let ghost tail = bytes@.subrange(pos as int, bytes.len() as int);
    if pos == bytes.len() {
        return None;
    }
    let flag: u8 = bytes[pos];
    if flag == 0 {
        assert(bytes@.subrange(pos as int, pos + 1) =~= seq![0u8]);
        Some((None, pos + 1))
    } else if flag == 1 {
        let ghost rest = bytes@.subrange(pos + 1, bytes.len() as int);
        match read_text(bytes, pos + 1) {
            Some((text, next)) => {
                assert(bytes@.subrange(pos as int, next as int) =~= seq![1u8] + text_bytes(
                    text@,
                ));
                Some((Some(text), next))
            },
            None => {
                proof {
                    assert forall|t: Option<Seq<char>>| optional_text_fits(t) implies !begins_with(
                        tail,
                        #[trigger] optional_text_bytes(t),
                    ) by {
                        if begins_with(tail, optional_text_bytes(t)) {
                            let form = optional_text_bytes(t);
                            assert(form[0] == tail.subrange(0, form.len() as int)[0]);
                            match t {
                                Some(inner) => {
                                    assert(rest.subrange(0, text_bytes(inner).len() as int)
                                        =~= tail.subrange(0, form.len() as int).subrange(
                                        1,
                                        form.len() as int,
                                    ));
                                    assert(form.subrange(1, form.len() as int) =~= text_bytes(
                                        inner,
                                    ));
                                    assert(begins_with(rest, text_bytes(inner)));
                                },
                                None => {},
                            }
                        }
                    }
                }
                None
            },
        }
    } else {
        proof {
            assert forall|t: Option<Seq<char>>| optional_text_fits(t) implies !begins_with(
                tail,
                #[trigger] optional_text_bytes(t),
            ) by {
                if begins_with(tail, optional_text_bytes(t)) {
                    let form = optional_text_bytes(t);
                    assert(form[0] == tail.subrange(0, form.len() as int)[0]);
                }
            }
        }
        None
    }
}

/// What an optional operation says.
pub open spec fn operation_view(op: Option<Operation>) -> Option<OperationView> {
    match op {
        Some(o) => Some(o@),
        None => None,
    }
}

/// Reads the stored form of an `Update` from bytes whose first is its tag.
fn decode_update(bytes: &Vec<u8>) -> (r: Option<Operation>)
    requires
        bytes.len() >= 1,
        bytes[0] == TAG_UPDATE,
    ensures
        r matches Some(op) ==> stores(bytes@, op@),
        r is None ==> forall|op: OperationView| !stores(bytes@, op),
{
    let ghost end = bytes.len() as int;
    proof {
        assert forall|op: OperationView| #[trigger] stores(bytes@, op) implies op is Update by {
            assert(operation_bytes(op)[0] == TAG_UPDATE);
        }
    }
    if bytes.len() < 25 {
        proof {
            assert forall|op: OperationView| !stores(bytes@, op) by {
                if stores(bytes@, op) {
                    lemma_update_stored(
                        bytes@,
                        op->Update_uuid,
                        op->Update_property,
                        op->Update_old_value,
                        op->Update_value,
                        op->Update_timestamp,
                    );
                }
            }
        }
        return None;
    }
    let uuid: u128 = read_be(bytes, 1, 16);
    let instant: u128 = read_be(bytes, 17, 8);
    proof {
        lemma_be_bytes_of_value(bytes@.subrange(1, 17));
        lemma_be_bytes_of_value(bytes@.subrange(17, 25));
        lemma_pow256_limits();
    }
    let low: u64 = instant as u64;
    let timestamp: i64 = low as i64;
    proof {
        assert((low as i64) as u64 == low) by (bit_vector);
        assert(timestamp_bytes(timestamp) == bytes@.subrange(17, 25));
        assert(uuid_bytes(uuid) == bytes@.subrange(1, 17));
    }
    let (property, at_old) = match read_text(bytes, 25) {
        Some(found) => found,
        None => {
            proof {
                assert forall|op: OperationView| !stores(bytes@, op) by {
                    if stores(bytes@, op) {
                        lemma_update_stored(
                            bytes@,
                            op->Update_uuid,
                            op->Update_property,
                            op->Update_old_value,
                            op->Update_value,
                            op->Update_timestamp,
                        );
                    }
                }
            }
            return None;
        },
    };
    proof {
        lemma_text_bytes_len(property@);
        assert(bytes@.subrange(25, end).subrange(0, at_old - 25) =~= bytes@.subrange(25, at_old as int));
        assert(begins_with(bytes@.subrange(25, end), text_bytes(property@)));
    }
    let (old_value, at_new) = match read_optional_text(bytes, at_old) {
        Some(found) => found,
        None => {
            proof {
                assert forall|op: OperationView| !stores(bytes@, op) by {
                    if stores(bytes@, op) {
                        lemma_update_stored(
                            bytes@,
                            op->Update_uuid,
                            op->Update_property,
                            op->Update_old_value,
                            op->Update_value,
                            op->Update_timestamp,
                        );
                        lemma_text_unique(
                            bytes@.subrange(25, end),
                            property@,
                            op->Update_property,
                        );
                    }
                }
            }
            return None;
        },
    };
    proof {
        assert(bytes@.subrange(at_old as int, end).subrange(0, at_new - at_old) =~= bytes@.subrange(
            at_old as int,
            at_new as int,
        ));
        assert(begins_with(
            bytes@.subrange(at_old as int, end),
            optional_text_bytes(text_view(old_value)),
        ));
    }
    let (value, at_end) = match read_optional_text(bytes, at_new) {
        Some(found) => found,
        None => {
            proof {
                assert forall|op: OperationView| !stores(bytes@, op) by {
                    if stores(bytes@, op) {
                        lemma_update_stored(
                            bytes@,
                            op->Update_uuid,
                            op->Update_property,
                            op->Update_old_value,
                            op->Update_value,
                            op->Update_timestamp,
                        );
                        lemma_text_unique(
                            bytes@.subrange(25, end),
                            property@,
                            op->Update_property,
                        );
                        lemma_optional_text_unique(
                            bytes@.subrange(at_old as int, end),
                            text_view(old_value),
                            op->Update_old_value,
                        );
                    }
                }
            }
            return None;
        },
    };
    proof {
        assert(bytes@.subrange(at_new as int, end).subrange(0, at_end - at_new) =~= bytes@.subrange(
            at_new as int,
            at_end as int,
        ));
        assert(begins_with(
            bytes@.subrange(at_new as int, end),
            optional_text_bytes(text_view(value)),
        ));
    }
    if at_end != bytes.len() {
        proof {
            assert forall|op: OperationView| !stores(bytes@, op) by {
                if stores(bytes@, op) {
                    lemma_update_stored(
                        bytes@,
                        op->Update_uuid,
                        op->Update_property,
                        op->Update_old_value,
                        op->Update_value,
                        op->Update_timestamp,
                    );
                    lemma_text_unique(bytes@.subrange(25, end), property@, op->Update_property);
                    lemma_optional_text_unique(
                        bytes@.subrange(at_old as int, end),
                        text_view(old_value),
                        op->Update_old_value,
                    );
                    lemma_optional_text_unique(
                        bytes@.subrange(at_new as int, end),
                        text_view(value),
                        op->Update_value,
                    );
                }
            }
        }
        return None;
    }
    let op = Operation::Update { uuid, property, old_value, value, timestamp };
    proof {
        assert(bytes@ =~= seq![TAG_UPDATE] + bytes@.subrange(1, 17) + bytes@.subrange(17, 25)
            + bytes@.subrange(25, at_old as int) + bytes@.subrange(at_old as int, at_new as int)
            + bytes@.subrange(at_new as int, at_end as int));
    }
    Some(op)
}

/// Reads the stored form of an operation: the operation that `bytes` is the stored
/// form of, or nothing where it is that of none.
pub fn decode_operation(bytes: &Vec<u8>) -> (r: Option<Operation>)
    ensures
        operation_view(r) == operation_of_bytes(bytes@),
{
    let r = decode_stored(bytes);
    proof {
        if r is Some {
            lemma_operation_round_trip(r->0@);
        }
    }
    r
}

/// Reads the stored form of an operation, whatever its kind.
fn decode_stored(bytes: &Vec<u8>) -> (r: Option<Operation>)
    ensures
        r matches Some(op) ==> stores(bytes@, op@),
        r is None ==> forall|op: OperationView| !stores(bytes@, op),
{
    if bytes.len() == 0 {
        return None;
    }
    let tag: u8 = bytes[0];
    proof {
        assert forall|op: OperationView| #[trigger] stores(bytes@, op) implies operation_bytes(
            op,
        )[0] == tag by {}
        lemma_pow256_limits();
    }
    if tag == TAG_UPDATE {
        decode_update(bytes)
    } else if tag == TAG_UNDO_POINT {
        if bytes.len() == 1 {
            assert(bytes@ =~= seq![TAG_UNDO_POINT]);
            Some(Operation::UndoPoint)
        } else {
            None
        }
    } else if tag == TAG_CREATE || tag == TAG_DELETE {
        if bytes.len() != 17 {
            proof {
                assert forall|op: OperationView| !stores(bytes@, op) by {
                    if stores(bytes@, op) {
                        match op {
                            OperationView::Create { uuid } => {
                                lemma_be_bytes_len(uuid as nat, 16);
                            },
                            OperationView::Delete { uuid } => {
                                lemma_be_bytes_len(uuid as nat, 16);
                            },
                            _ => {},
                        }
                    }
                }
            }
            return None;
        }
        let uuid: u128 = read_be(bytes, 1, 16);
        proof {
            lemma_be_bytes_of_value(bytes@.subrange(1, 17));
            assert(bytes@ =~= seq![tag] + bytes@.subrange(1, 17));
        }
        if tag == TAG_CREATE {
            Some(Operation::Create { uuid })
        } else {
            Some(Operation::Delete { uuid })
        }
    } else {
        None
    }
}

} // verus!
