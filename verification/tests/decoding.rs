use bitcoin::consensus::encode::Error as EncodeError;
use bitcoin_core_sv2::decode::{
    collect_merkle_path, decode_header, decode_transaction, header_decoded, transaction_decoded,
};
use bitcoin_core_sv2::error::IpcError;
use bitcoin_core_sv2::types::{BlockHeader, Transaction};

const LEFT_OVER: &str = "data not consumed entirely when explicitly deserializing";

fn write_header(header: &BlockHeader) -> Vec<u8> {
    bitcoin::consensus::serialize(&bitcoin::block::Header {
        version: bitcoin::block::Version::from_consensus(header.version),
        prev_blockhash: bitcoin::hashes::Hash::from_byte_array(header.prev_blockhash.bytes),
        merkle_root: bitcoin::hashes::Hash::from_byte_array(header.merkle_root.bytes),
        time: header.time,
        bits: bitcoin::CompactTarget::from_consensus(header.bits),
        nonce: header.nonce,
    })
}

fn write_transaction(tx: &Transaction) -> Vec<u8> {
    let input = tx.input.iter().map(|i| bitcoin::TxIn {
        previous_output: bitcoin::OutPoint {
            txid: bitcoin::hashes::Hash::from_byte_array(i.previous_output.txid),
            vout: i.previous_output.vout,
        },
        script_sig: bitcoin::ScriptBuf::from_bytes(i.script_sig.clone()),
        sequence: bitcoin::Sequence(i.sequence),
        witness: bitcoin::Witness::from_slice(&i.witness),
    });
    let output = tx.output.iter().map(|o| bitcoin::TxOut {
        value: bitcoin::Amount::from_sat(o.value),
        script_pubkey: bitcoin::ScriptBuf::from_bytes(o.script_pubkey.clone()),
    });
    bitcoin::consensus::serialize(&bitcoin::Transaction {
        version: bitcoin::transaction::Version(tx.version),
        lock_time: bitcoin::absolute::LockTime::from_consensus(tx.lock_time),
        input: input.collect(),
        output: output.collect(),
    })
}

fn genesis_header() -> Vec<u8> {
    let mut bytes: Vec<u8> = vec![1, 0, 0, 0];
    bytes.extend_from_slice(&[0u8; 32]);
    bytes.extend_from_slice(&[
        0x3b, 0xa3, 0xed, 0xfd, 0x7a, 0x7b, 0x12, 0xb2, 0x7a, 0xc7, 0x2c, 0x3e, 0x67, 0x76, 0x8f,
        0x61, 0x7f, 0xc8, 0x1b, 0xc3, 0x88, 0x8a, 0x51, 0x32, 0x3a, 0x9f, 0xb8, 0xaa, 0x4b, 0x1e,
        0x5e, 0x4a,
    ]);
    bytes.extend_from_slice(&[0x29, 0xab, 0x5f, 0x49]);
    bytes.extend_from_slice(&[0xff, 0xff, 0x00, 0x1d]);
    bytes.extend_from_slice(&[0x1d, 0xac, 0x2b, 0x7c]);
    bytes
}

fn legacy_transaction() -> Vec<u8> {
    let mut bytes: Vec<u8> = vec![2, 0, 0, 0, 1];
    bytes.extend_from_slice(&[7u8; 32]);
    bytes.extend_from_slice(&[0xff, 0xff, 0xff, 0xff]);
    bytes.extend_from_slice(&[3, 0x51, 0x52, 0x53]);
    bytes.extend_from_slice(&[0xfe, 0xff, 0xff, 0xff]);
    bytes.push(1);
    bytes.extend_from_slice(&[0x00, 0xf2, 0x05, 0x2a, 1, 0, 0, 0]);
    bytes.extend_from_slice(&[2, 0x6a, 0x00]);
    bytes.extend_from_slice(&[0x10, 0, 0, 0]);
    bytes
}

fn segwit_transaction() -> Vec<u8> {
    let mut bytes: Vec<u8> = vec![2, 0, 0, 0, 0, 1, 1];
    bytes.extend_from_slice(&[0u8; 32]);
    bytes.extend_from_slice(&[0xff, 0xff, 0xff, 0xff]);
    bytes.extend_from_slice(&[1, 0x51]);
    bytes.extend_from_slice(&[0xff, 0xff, 0xff, 0xff]);
    bytes.push(1);
    bytes.extend_from_slice(&[9, 0, 0, 0, 0, 0, 0, 0]);
    bytes.extend_from_slice(&[1, 0x51]);
    bytes.extend_from_slice(&[2, 2, 0xaa, 0xbb, 1, 0xcc]);
    bytes.extend_from_slice(&[0, 0, 0, 0]);
    bytes
}

fn transaction_without_inputs() -> Vec<u8> {
    let mut bytes: Vec<u8> = vec![2, 0, 0, 0, 0, 1, 0, 1];
    bytes.extend_from_slice(&[9, 0, 0, 0, 0, 0, 0, 0]);
    bytes.extend_from_slice(&[1, 0x51]);
    bytes.extend_from_slice(&[0, 0, 0, 0]);
    bytes
}

#[test]
fn header_fields_stand_in_order() {
    let header = decode_header(&genesis_header()).unwrap();
    assert_eq!(header.version, 1);
    assert_eq!(header.prev_blockhash.bytes, [0u8; 32]);
    assert_eq!(header.merkle_root.bytes[0], 0x3b);
    assert_eq!(header.merkle_root.bytes[31], 0x4a);
    assert_eq!(header.time, 1231006505);
    assert_eq!(header.bits, 0x1d00ffff);
    assert_eq!(header.nonce, 2083236893);
}

#[test]
fn header_version_is_signed() {
    let mut bytes = genesis_header();
    bytes[0] = 0xfe;
    bytes[1] = 0xff;
    bytes[2] = 0xff;
    bytes[3] = 0xff;
    assert_eq!(decode_header(&bytes).unwrap().version, -2);
}

#[test]
fn header_previous_hash_keeps_its_byte_order() {
    let mut bytes = genesis_header();
    bytes[4] = 0xab;
    bytes[35] = 0xcd;
    let header = decode_header(&bytes).unwrap();
    assert_eq!(header.prev_blockhash.bytes[0], 0xab);
    assert_eq!(header.prev_blockhash.bytes[31], 0xcd);
}

#[test]
fn header_too_short_or_too_long_is_refused() {
    let mut bytes = genesis_header();
    bytes.push(0);
    assert!(matches!(
        decode_header(&bytes),
        Err(IpcError::Decode(EncodeError::ParseFailed(LEFT_OVER)))
    ));
    bytes.pop();
    bytes.pop();
    assert!(matches!(decode_header(&bytes), Err(IpcError::Decode(EncodeError::Io(_)))));
    assert!(matches!(decode_header(&Vec::new()), Err(IpcError::Decode(EncodeError::Io(_)))));
}

#[test]
fn what_reading_a_header_gave_is_handed_on() {
    let header = decode_header(&genesis_header()).unwrap();
    assert_eq!(header_decoded(Ok(header)).unwrap().nonce, 2083236893);
    assert!(matches!(
        header_decoded(Err(EncodeError::NonMinimalVarInt)),
        Err(IpcError::Decode(EncodeError::NonMinimalVarInt))
    ));
}

#[test]
fn header_is_written_as_it_was_read() {
    for version in [[1u8, 0, 0, 0], [0xfe, 0xff, 0xff, 0xff], [0, 0, 0, 0x80], [0, 0, 0, 0x20]] {
        let mut bytes = genesis_header();
        bytes[..4].copy_from_slice(&version);
        assert_eq!(write_header(&decode_header(&bytes).unwrap()), bytes);
    }
}

#[test]
fn legacy_transaction_is_read() {
    let tx = decode_transaction(&legacy_transaction()).unwrap();
    assert_eq!(tx.version, 2);
    assert_eq!(tx.lock_time, 16);
    assert_eq!(tx.input.len(), 1);
    assert_eq!(tx.input[0].previous_output.txid, [7u8; 32]);
    assert_eq!(tx.input[0].previous_output.vout, u32::MAX);
    assert_eq!(tx.input[0].script_sig, vec![0x51u8, 0x52, 0x53]);
    assert_eq!(tx.input[0].sequence, 0xfffffffe);
    assert!(tx.input[0].witness.is_empty());
    assert_eq!(tx.output.len(), 1);
    assert_eq!(tx.output[0].value, 5_000_000_000);
    assert_eq!(tx.output[0].script_pubkey, vec![0x6au8, 0x00]);
}

#[test]
fn segwit_transaction_is_read() {
    let tx = decode_transaction(&segwit_transaction()).unwrap();
    assert_eq!(tx.input[0].witness, vec![vec![0xaau8, 0xbb], vec![0xccu8]]);
    assert_eq!(tx.output[0].value, 9);
}

#[test]
fn transaction_is_written_as_it_was_read() {
    for bytes in [legacy_transaction(), segwit_transaction(), transaction_without_inputs()] {
        assert_eq!(write_transaction(&decode_transaction(&bytes).unwrap()), bytes);
    }
}

#[test]
fn broken_transaction_is_refused() {
    let mut bytes = legacy_transaction();
    bytes.push(0);
    assert!(matches!(
        decode_transaction(&bytes),
        Err(IpcError::Decode(EncodeError::ParseFailed(LEFT_OVER)))
    ));
    bytes.truncate(20);
    assert!(matches!(decode_transaction(&bytes), Err(IpcError::Decode(EncodeError::Io(_)))));
}

#[test]
fn second_encoding_of_a_transaction_is_refused() {
    let mut long_length = legacy_transaction();
    long_length.splice(4..5, [0xfd, 1, 0]);
    assert!(matches!(
        decode_transaction(&long_length),
        Err(IpcError::Decode(EncodeError::NonMinimalVarInt))
    ));

    let mut empty_witness = legacy_transaction();
    empty_witness.splice(4..4, [0, 1]);
    let lock_time = empty_witness.len() - 4;
    empty_witness.insert(lock_time, 0);
    assert!(matches!(
        decode_transaction(&empty_witness),
        Err(IpcError::Decode(EncodeError::ParseFailed(
            "witness flag set but no witnesses present"
        )))
    ));

    let mut unknown_flag = segwit_transaction();
    unknown_flag[5] = 2;
    assert!(matches!(
        decode_transaction(&unknown_flag),
        Err(IpcError::Decode(EncodeError::UnsupportedSegwitFlag(2)))
    ));
}

#[test]
fn what_reading_a_transaction_gave_is_handed_on() {
    let tx = decode_transaction(&legacy_transaction()).unwrap();
    assert_eq!(transaction_decoded(Ok(tx)).unwrap().lock_time, 16);
    assert!(matches!(
        transaction_decoded(Err(EncodeError::UnsupportedSegwitFlag(7))),
        Err(IpcError::Decode(EncodeError::UnsupportedSegwitFlag(7)))
    ));
}

#[test]
fn merkle_path_is_collected_in_order() {
    let path = collect_merkle_path(vec![Ok(vec![1u8]), Ok(vec![2u8, 3]), Ok(Vec::new())]).unwrap();
    assert_eq!(path, vec![vec![1u8], vec![2u8, 3], Vec::new()]);
    assert!(collect_merkle_path(Vec::new()).unwrap().is_empty());
}

#[test]
fn merkle_path_stops_at_the_first_error() {
    let items = vec![
        Ok(vec![1u8]),
        Err(capnp::Error::failed("first".to_string())),
        Err(capnp::Error::failed("second".to_string())),
    ];
    assert_eq!(collect_merkle_path(items).unwrap_err().extra, "first");
}
