//! From the bytes that the node sends to the values they encode.
use crate::error::IpcError;
use crate::types::{BlockHash, BlockHeader, OutPoint, Transaction, TransactionView, TxIn, TxOut};
use vstd::prelude::*;

verus! {

/// The length in bytes of an encoded block header.
pub const HEADER_SIZE: usize = 80;

/// The number whose four bytes stand at `at`, least significant first.
pub open spec fn le_u32(bytes: Seq<u8>, at: int) -> int {
    bytes[at] + 0x100 * bytes[at + 1] + 0x1_0000 * bytes[at + 2] + 0x100_0000 * bytes[at + 3]
}

/// The signed number whose four bytes, in two's complement, stand at `at`,
/// least significant first.
pub open spec fn le_i32(bytes: Seq<u8>, at: int) -> int {
    if le_u32(bytes, at) < 0x8000_0000 {
        le_u32(bytes, at)
    } else {
        le_u32(bytes, at) - 0x1_0000_0000
    }
}

/// The four bytes of `number`, least significant first.
pub open spec fn le_bytes(number: int) -> Seq<u8> {
    seq![
        (number % 0x100) as u8,
        (number / 0x100 % 0x100) as u8,
        (number / 0x100 / 0x100 % 0x100) as u8,
        (number / 0x100 / 0x100 / 0x100 % 0x100) as u8,
    ]
}

/// `header` is what `bytes` encode: version, previous block hash, merkle root, time,
/// bits and nonce, one behind the other.
pub open spec fn encodes_header(bytes: Seq<u8>, header: BlockHeader) -> bool {
    &&& bytes.len() == HEADER_SIZE
    &&& header.version == le_i32(bytes, 0)
    &&& header.prev_blockhash.bytes@ == bytes.subrange(4, 36)
    &&& header.merkle_root.bytes@ == bytes.subrange(36, 68)
    &&& header.time == le_u32(bytes, 68)
    &&& header.bits == le_u32(bytes, 72)
    &&& header.nonce == le_u32(bytes, 76)
}

/// The consensus encoding of `header`.
pub open spec fn header_bytes(header: BlockHeader) -> Seq<u8> {
    le_bytes(header.version as int) + header.prev_blockhash.bytes@ + header.merkle_root.bytes@
        + le_bytes(header.time as int) + le_bytes(header.bits as int) + le_bytes(
        header.nonce as int,
    )
}

/// The error that `bitcoin::consensus::deserialize` gives for `bytes` that encode no
/// header.
pub uninterp spec fn header_error(bytes: Seq<u8>) -> bitcoin::consensus::encode::Error;

/// Calls `bitcoin::consensus::deserialize` for a `bitcoin::block::Header`.
///
/// Believed of it: it succeeds on byte strings of exactly 80 bytes and on no others,
/// and then gives the header whose fields stand in them in the order of the consensus
/// encoding, integers least significant byte first. The error that other byte strings
/// give depends on them alone; what stands in it is left unsaid, for it is opaque here.
#[verifier::external_body]
fn deserialize_header(bytes: &Vec<u8>) -> (res: Result<
    BlockHeader,
    bitcoin::consensus::encode::Error,
>)
    ensures
        res is Ok <==> bytes@.len() == HEADER_SIZE,
        res matches Ok(header) ==> encodes_header(bytes@, header),
        res matches Err(error) ==> error == header_error(bytes@),
{
    let header: bitcoin::block::Header = bitcoin::consensus::deserialize(bytes)?;
    Ok(BlockHeader {
        version: header.version.to_consensus(),
        prev_blockhash: BlockHash { bytes: bitcoin::hashes::Hash::to_byte_array(header.prev_blockhash) },
        merkle_root: BlockHash { bytes: bitcoin::hashes::Hash::to_byte_array(header.merkle_root) },
        time: header.time,
        bits: header.bits.to_consensus(),
        nonce: header.nonce,
    })
}

/// What `bitcoin::consensus::deserialize` makes of `bytes` where a transaction is asked
/// for and `usize`, the type that it reads lengths into, has `usize_bits` bits.
pub uninterp spec fn deserialized_transaction(bytes: Seq<u8>, usize_bits: u32) -> Result<
    TransactionView,
    bitcoin::consensus::encode::Error,
>;

/// What `bitcoin::consensus::serialize` makes of `tx`. Nothing here calls that function:
/// all that is known of this name is that it gives back the bytes of a transaction that
/// was read, which is believed at [`deserialize_transaction`]. What it is for any other
/// transaction is left open.
pub uninterp spec fn serialized_transaction(tx: TransactionView) -> Seq<u8>;

/// `tx` is what `bytes` encode: reading them gives `tx`, and writing `tx` gives them
/// back. The latter is said only where `usize` has 64 bits; a narrower one can cut a
/// length that it is read into.
pub open spec fn encodes_transaction(bytes: Seq<u8>, tx: TransactionView) -> bool {
    &&& deserialized_transaction(bytes, usize::BITS) == Ok::<_, bitcoin::consensus::encode::Error>(
        tx,
    )
    &&& usize::BITS == 64 ==> serialized_transaction(tx) == bytes
}

/// Calls `bitcoin::consensus::deserialize` for a `bitcoin::Transaction`.
///
/// Believed of it: the transaction or the error that it gives depends on the bytes and
/// on the width of `usize` alone. Where that is 64 bits, `bitcoin::consensus::serialize`
/// turns the transaction into the same bytes again: lengths, and the transaction as a
/// whole, are read only in the form that they are written in. What the encoding is, and
/// what stands in an error, is left unsaid.
#[verifier::external_body]
fn deserialize_transaction(bytes: &Vec<u8>) -> (res: Result<
    Transaction,
    bitcoin::consensus::encode::Error,
>)
    ensures
        match res {
            Ok(tx) => deserialized_transaction(bytes@, usize::BITS) == Ok::<
                _,
                bitcoin::consensus::encode::Error,
            >(tx@),
            Err(error) => deserialized_transaction(bytes@, usize::BITS) == Err::<
                TransactionView,
                _,
            >(error),
        },
        usize::BITS == 64 ==> (res matches Ok(tx) ==> serialized_transaction(tx@) == bytes@),
{
    let tx: bitcoin::Transaction = bitcoin::consensus::deserialize(bytes)?;
    let input = tx.input.into_iter().map(|i| TxIn {
        previous_output: OutPoint { txid: bitcoin::hashes::Hash::to_byte_array(i.previous_output.txid), vout: i.previous_output.vout },
        script_sig: i.script_sig.into_bytes(),
        sequence: i.sequence.0,
        witness: i.witness.to_vec(),
    }).collect();
    let output = tx.output.into_iter().map(|o| TxOut {
        value: o.value.to_sat(),
        script_pubkey: o.script_pubkey.into_bytes(),
    }).collect();
    Ok(Transaction { version: tx.version.0, lock_time: tx.lock_time.to_consensus_u32(), input, output })
}

/// The header that `bytes` encode, or why they encode none.
pub open spec fn encoded_header(bytes: Seq<u8>) -> Result<
    BlockHeader,
    bitcoin::consensus::encode::Error,
> {
    if exists|header: BlockHeader| encodes_header(bytes, header) {
        Ok(choose|header: BlockHeader| encodes_header(bytes, header))
    } else {
        Err(header_error(bytes))
    }
}

/// The transaction that `bytes` encode, or why they encode none.
pub open spec fn encoded_transaction(bytes: Seq<u8>) -> Result<
    TransactionView,
    bitcoin::consensus::encode::Error,
> {
    if exists|tx: TransactionView| encodes_transaction(bytes, tx) {
        Ok(choose|tx: TransactionView| encodes_transaction(bytes, tx))
    } else {
        Err(deserialized_transaction(bytes, usize::BITS)->Err_0)
    }
}

/// Bytes encode no more than one header.
pub proof fn law_header_is_unique(bytes: Seq<u8>, one: BlockHeader, other: BlockHeader)
    requires
        encodes_header(bytes, one),
        encodes_header(bytes, other),
    ensures
        one == other,
{
    assert(one.prev_blockhash.bytes =~= other.prev_blockhash.bytes);
    assert(one.merkle_root.bytes =~= other.merkle_root.bytes);
}

/// The last byte of a number, and the number without it.
proof fn lemma_last_byte(last: u8, rest: int)
    ensures
        (last + 0x100 * rest) % 0x100 == last,
        (last + 0x100 * rest) / 0x100 == rest,
{
}

/// The bytes of a number that is written with them; a multiple of what four bytes can
/// hold changes none of them.
proof fn lemma_four_bytes(b0: u8, b1: u8, b2: u8, b3: u8, beyond: int)
    ensures
        le_bytes(b0 + 0x100 * b1 + 0x1_0000 * b2 + 0x100_0000 * b3 + 0x1_0000_0000 * beyond)
            == seq![b0, b1, b2, b3],
{
    let third = b3 + 0x100 * beyond;
    let second = b2 + 0x100 * third;
    let first = b1 + 0x100 * second;
    lemma_last_byte(b3, beyond);
    lemma_last_byte(b2, third);
    lemma_last_byte(b1, second);
    lemma_last_byte(b0, first);
    assert(le_bytes(b0 + 0x100 * first) =~= seq![b0, b1, b2, b3]);
}

/// Four bytes are those of the number that they encode, with or without a sign.
proof fn lemma_le_bytes(bytes: Seq<u8>, at: int)
    requires
        0 <= at <= bytes.len() - 4,
    ensures
        le_bytes(le_u32(bytes, at)) == bytes.subrange(at, at + 4),
        le_bytes(le_i32(bytes, at)) == bytes.subrange(at, at + 4),
{
    lemma_four_bytes(bytes[at], bytes[at + 1], bytes[at + 2], bytes[at + 3], 0);
    lemma_four_bytes(bytes[at], bytes[at + 1], bytes[at + 2], bytes[at + 3], -1);
    assert(le_bytes(le_u32(bytes, at)) =~= bytes.subrange(at, at + 4));
    assert(le_bytes(le_i32(bytes, at)) =~= bytes.subrange(at, at + 4));
}

/// Bytes that encode a header are its consensus encoding, byte for byte.
pub proof fn law_header_gives_its_bytes_back(bytes: Seq<u8>, header: BlockHeader)
    requires
        encodes_header(bytes, header),
    ensures
        header_bytes(header) == bytes,
{
    lemma_le_bytes(bytes, 0);
    lemma_le_bytes(bytes, 68);
    lemma_le_bytes(bytes, 72);
    lemma_le_bytes(bytes, 76);
    assert(header_bytes(header) =~= bytes);
}

/// No two byte strings encode the same header.
pub proof fn law_header_has_one_encoding(one: Seq<u8>, other: Seq<u8>, header: BlockHeader)
    requires
        encodes_header(one, header),
        encodes_header(other, header),
    ensures
        one == other,
{
    law_header_gives_its_bytes_back(one, header);
    law_header_gives_its_bytes_back(other, header);
}

/// Where `usize` has 64 bits, no two byte strings encode the same transaction.
pub proof fn law_transaction_has_one_encoding(
    one: Seq<u8>,
    other: Seq<u8>,
    tx: TransactionView,
)
    requires
        usize::BITS == 64,
        encodes_transaction(one, tx),
        encodes_transaction(other, tx),
    ensures
        one == other,
{
}

/// Hands on what reading a block header gave.
pub fn header_decoded(read: Result<BlockHeader, bitcoin::consensus::encode::Error>) -> (res: Result<
    BlockHeader,
    IpcError,
>)
    ensures
        res == match read {
            Ok(header) => Ok::<_, IpcError>(header),
            Err(error) => Err::<BlockHeader, _>(IpcError::Decode(error)),
        },
{
    match read {
        Ok(header) => Ok(header),
        Err(error) => Err(IpcError::Decode(error)),
    }
}

/// Reads a block header.
pub fn decode_header(bytes: &Vec<u8>) -> (res: Result<BlockHeader, IpcError>)
    ensures
        res is Ok <==> bytes@.len() == HEADER_SIZE,
        match res {
            Ok(header) => encodes_header(bytes@, header) && encoded_header(bytes@) == Ok::<
                _,
                bitcoin::consensus::encode::Error,
            >(header),
            Err(error) => error == IpcError::Decode(header_error(bytes@)),
        },
{
    let read = deserialize_header(bytes);
    proof {
        if let Ok(header) = read {
            law_header_is_unique(bytes@, header, encoded_header(bytes@)->Ok_0);
        }
    }
    header_decoded(read)
}

/// Hands on what reading a transaction gave.
pub fn transaction_decoded(read: Result<Transaction, bitcoin::consensus::encode::Error>) -> (res:
    Result<Transaction, IpcError>)
    ensures
        res == match read {
            Ok(tx) => Ok::<_, IpcError>(tx),
            Err(error) => Err::<Transaction, _>(IpcError::Decode(error)),
        },
{
    match read {
        Ok(tx) => Ok(tx),
        Err(error) => Err(IpcError::Decode(error)),
    }
}

/// Reads a transaction.
pub fn decode_transaction(bytes: &Vec<u8>) -> (res: Result<Transaction, IpcError>)
    ensures
        match res {
            Ok(tx) => encodes_transaction(bytes@, tx@) && encoded_transaction(bytes@) == Ok::<
                _,
                bitcoin::consensus::encode::Error,
            >(tx@),
            Err(error) => encoded_transaction(bytes@) is Err && error == IpcError::Decode(
                encoded_transaction(bytes@)->Err_0,
            ),
        },
{
    transaction_decoded(deserialize_transaction(bytes))
}

/// `at` is the first place in `items` that could not be read.
pub open spec fn first_unreadable(
    items: Seq<Result<Vec<u8>, capnp::Error>>,
    at: int,
) -> bool {
    &&& 0 <= at < items.len()
    &&& items[at] is Err
    &&& forall|i: int| 0 <= i < at ==> #[trigger] items[i] is Ok
}

/// The byte strings in `items`, or the first error there.
pub open spec fn readable_items(items: Seq<Result<Vec<u8>, capnp::Error>>) -> Result<
    Seq<Seq<u8>>,
    capnp::Error,
> {
    if forall|i: int| 0 <= i < items.len() ==> #[trigger] items[i] is Ok {
        Ok(items.map_values(|item: Result<Vec<u8>, capnp::Error>| item->Ok_0@))
    } else {
        Err(items[choose|at: int| first_unreadable(items, at)]->Err_0)
    }
}

/// Collects the byte strings of a list, unless one of them could not be read.
pub fn collect_merkle_path(items: Vec<Result<Vec<u8>, capnp::Error>>) -> (res: Result<
    Vec<Vec<u8>>,
    capnp::Error,
>)
    ensures
        match res {
            Ok(path) => readable_items(items@) == Ok::<_, capnp::Error>(
                crate::types::byte_strings(path@),
            ),
            Err(error) => readable_items(items@) == Err::<Seq<Seq<u8>>, _>(error),
        },
{
    let ghost all = items@;
    let mut path: Vec<Vec<u8>> = Vec::new();
    for item in iter: items.into_iter()
        invariant
            iter.seq() == all,
            path@.len() == iter.index(),
            forall|i: int|
                0 <= i < path@.len() ==> #[trigger] all[i] is Ok && path@[i] == all[i]->Ok_0,
    {
        match item {
            Ok(bytes) => path.push(bytes),
            Err(error) => {
                proof {
                    let here = path@.len() as int;
                    assert(first_unreadable(all, here));
                    let at = choose|at: int| first_unreadable(all, at);
                    assert(at == here);
                }
                return Err(error);
            },
        }
    }
    proof {
        assert(all.map_values(|item: Result<Vec<u8>, capnp::Error>| item->Ok_0@)
            =~= crate::types::byte_strings(path@));
    }
    Ok(path)
}

} // verus!
