use rustls_wasm::chunk::{chunk_to_bytes, Chunk};
use rustls_wasm::reader::{ByteReader, FallbackReader, ReaderMode, ZeroCopyReader};
use rustls_wasm::writer::SinkWriter;
use rustls_wasm::RustlsWasmError;

#[test]
fn text_chunk_decodes_to_utf8_bytes() {
    let r = chunk_to_bytes(Chunk::Text(String::from("hello"))).unwrap();
    assert_eq!(r, b"hello".to_vec());
    let r = chunk_to_bytes(Chunk::Text(String::from("h\u{e9}llo"))).unwrap();
    assert_eq!(r, "h\u{e9}llo".as_bytes().to_vec());
}

#[test]
fn binary_chunk_decodes_to_itself() {
    let r = chunk_to_bytes(Chunk::Binary(vec![0u8, 255u8, 7u8])).unwrap();
    assert_eq!(r, vec![0u8, 255u8, 7u8]);
}

#[test]
fn other_chunk_is_invalid_payload() {
    let r = chunk_to_bytes(Chunk::Other);
    assert_eq!(r, Err(RustlsWasmError::InvalidPayload));
}

#[test]
fn fallback_reader_hello_then_eof() {
    let mut r = FallbackReader::new();
    r.push_chunk(Chunk::Text(String::from("he"))).unwrap();
    r.push_chunk(Chunk::Text(String::from("llo"))).unwrap();
    r.end_of_stream();
    assert_eq!(r.read(10), Some(Ok(b"hello".to_vec())));
    assert_eq!(r.read(10), Some(Ok(Vec::new())));
    assert_eq!(r.read(10), Some(Ok(Vec::new())));
}

#[test]
fn fallback_reader_slices_across_chunk_boundaries() {
    let mut r = FallbackReader::new();
    r.push_chunk(Chunk::Text(String::from("hel"))).unwrap();
    r.push_chunk(Chunk::Binary(b"lo ".to_vec())).unwrap();
    r.push_chunk(Chunk::Text(String::from("world"))).unwrap();
    r.end_of_stream();
    assert_eq!(r.read(4), Some(Ok(b"hell".to_vec())));
    assert_eq!(r.read(4), Some(Ok(b"o wo".to_vec())));
    assert_eq!(r.read(4), Some(Ok(b"rld".to_vec())));
    assert_eq!(r.read(4), Some(Ok(Vec::new())));
}

#[test]
fn fallback_reader_waits_when_no_data_and_stream_open() {
    let mut r = FallbackReader::new();
    assert_eq!(r.read(8), None);
    r.push_chunk(Chunk::Binary(b"ab".to_vec())).unwrap();
    assert_eq!(r.read(8), Some(Ok(b"ab".to_vec())));
    assert_eq!(r.read(8), None);
}

#[test]
fn invalid_chunk_is_sticky_invalid_payload() {
    let mut r = FallbackReader::new();
    r.push_chunk(Chunk::Binary(b"ok".to_vec())).unwrap();
    let e = r.push_chunk(Chunk::Other);
    assert_eq!(e, Err(RustlsWasmError::InvalidPayload));
    assert_eq!(r.read(8), Some(Err(RustlsWasmError::InvalidPayload)));
    assert_eq!(r.read(8), Some(Err(RustlsWasmError::InvalidPayload)));
    assert_eq!(r.read(1), Some(Err(RustlsWasmError::InvalidPayload)));
}

#[test]
fn source_failure_is_sticky_js_error() {
    let mut r = FallbackReader::new();
    r.push_failure(String::from("source broke"));
    assert_eq!(
        r.read(8),
        Some(Err(RustlsWasmError::Js(String::from("source broke"))))
    );
    assert_eq!(
        r.read(8),
        Some(Err(RustlsWasmError::Js(String::from("source broke"))))
    );
}

#[test]
fn zero_copy_reader_passes_bytes_through() {
    let mut z = ZeroCopyReader::new();
    let out = z.deliver(b"hunk".to_vec());
    assert_eq!(out, b"hunk".to_vec());
    let out = z.deliver(b"ier".to_vec());
    assert_eq!(out, b"ier".to_vec());
    z.end_of_stream();
}

#[test]
fn zero_copy_reader_surfaces_sticky_error() {
    let mut z = ZeroCopyReader::new();
    z.push_failure(String::from("broken pipe"));
    assert_eq!(
        z.read_errored(),
        Err(RustlsWasmError::Js(String::from("broken pipe")))
    );
    assert_eq!(
        z.read_errored(),
        Err(RustlsWasmError::Js(String::from("broken pipe")))
    );
}

#[test]
fn probe_picks_the_mode_once() {
    let r = ByteReader::from_probe(true);
    assert_eq!(r.mode(), ReaderMode::ZeroCopy);
    let r = ByteReader::from_probe(false);
    assert_eq!(r.mode(), ReaderMode::Fallback);
}

#[test]
fn both_paths_yield_identical_bytes_for_same_chunks() {
    let chunks = vec![
        Chunk::Text(String::from("he")),
        Chunk::Binary(b"llo ".to_vec()),
        Chunk::Text(String::from("world")),
    ];
    let mut fallback_out: Vec<u8> = Vec::new();
    let mut f = FallbackReader::new();
    for c in chunks {
        f.push_chunk(c).unwrap();
    }
    f.end_of_stream();
    loop {
        match f.read(3) {
            Some(Ok(v)) => {
                if v.is_empty() {
                    break;
                }
                fallback_out.extend_from_slice(&v);
            }
            other => panic!("unexpected read result: {:?}", other),
        }
    }

    let mut zero_copy_out: Vec<u8> = Vec::new();
    let mut z = ZeroCopyReader::new();
    for bytes in [b"he".to_vec(), b"llo ".to_vec(), b"world".to_vec()] {
        let v = z.deliver(bytes);
        zero_copy_out.extend_from_slice(&v);
    }
    z.end_of_stream();

    assert_eq!(fallback_out, zero_copy_out);
    assert_eq!(fallback_out, b"hello world".to_vec());
}

#[test]
fn writer_forwards_whole_buffer_as_binary_chunk() {
    let mut w = SinkWriter::new();
    let (accepted, chunk) = w.write(b"payload".to_vec()).unwrap();
    assert_eq!(accepted, 7);
    match chunk {
        Chunk::Binary(b) => assert_eq!(b, b"payload".to_vec()),
        _ => panic!("writer must forward a binary chunk"),
    }
}

#[test]
fn writer_close_once_second_close_rejected() {
    let mut w = SinkWriter::new();
    w.write(b"x".to_vec()).unwrap();
    assert_eq!(w.close(), Ok(()));
    assert_eq!(w.close(), Err(RustlsWasmError::Io));
    assert_eq!(w.close(), Err(RustlsWasmError::Io));
}

#[test]
fn writer_flush_is_trivially_successful() {
    let mut w = SinkWriter::new();
    assert_eq!(w.flush(), Ok(()));
    w.write(b"x".to_vec()).unwrap();
    assert_eq!(w.flush(), Ok(()));
}

#[test]
fn writer_rejects_write_after_close() {
    let mut w = SinkWriter::new();
    w.close().unwrap();
    assert_eq!(w.write(b"late".to_vec()), Err(RustlsWasmError::Io));
}
