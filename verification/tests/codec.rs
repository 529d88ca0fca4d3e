use hostbridge::codec::Base64File;
use hostbridge::errors::RpcError;

#[test]
fn round_trip_bytes() {
    let bytes: Vec<u8> = vec![0, 1, 2, 3, 127, 128, 255, 42];
    let envelope = Base64File::encode(&bytes);
    assert_eq!(envelope.unencoded_size, bytes.len());
    let back = envelope.decode().unwrap();
    assert_eq!(back, bytes);
}

#[test]
fn round_trip_empty() {
    let bytes: Vec<u8> = vec![];
    let envelope = Base64File::encode(&bytes);
    assert_eq!(envelope.unencoded_size, 0);
    assert_eq!(envelope.decode().unwrap(), bytes);
}

#[test]
fn encode_exact_rendering() {
    let bytes: Vec<u8> = b"hello".to_vec();
    let envelope = Base64File::encode(&bytes);
    assert_eq!(envelope.unencoded_size, 5);
    assert_eq!(envelope.base64, "aGVsbG8=");
}

#[test]
fn decode_size_mismatch_fails() {
    // valid text for "hello", but a declared size of 4
    let envelope = Base64File { unencoded_size: 4, base64: "aGVsbG8=".to_string() };
    let r = envelope.decode();
    assert!(matches!(r, Err(RpcError::DecodeError)));
}

#[test]
fn decode_size_too_large_fails() {
    let envelope = Base64File { unencoded_size: 6, base64: "aGVsbG8=".to_string() };
    assert!(matches!(envelope.decode(), Err(RpcError::DecodeError)));
}

#[test]
fn decode_alphabet_violation_fails() {
    let envelope = Base64File { unencoded_size: 3, base64: "!!!!".to_string() };
    assert!(matches!(envelope.decode(), Err(RpcError::DecodeError)));
}

#[test]
fn decode_exact_value() {
    let envelope = Base64File { unencoded_size: 5, base64: "aGVsbG8=".to_string() };
    assert_eq!(envelope.decode().unwrap(), b"hello".to_vec());
}

#[test]
fn error_messages() {
    assert_eq!(RpcError::NotFound.message(), "file not found");
    assert_eq!(RpcError::DecodeError.message(), "could not decode file payload");
    assert_eq!(RpcError::IoError("disk full".to_string()).message(), "disk full");
    assert_eq!(
        RpcError::UnknownMethod("frobnicate".to_string()).message(),
        "Wrong RPC method, got: frobnicate"
    );
    assert_eq!(RpcError::ArgumentError.message(), "argument required");
    assert_eq!(RpcError::ExternalServiceError("no dialog".to_string()).message(), "no dialog");
}
