use gifdex_ingest::proxy::{assemble_blob, blob_fetch_status, BlobBuffer, BlobFetchError};

#[test]
fn whole_stream_within_ceiling_is_returned() {
    let chunks = vec![vec![1u8, 2, 3], vec![], vec![4u8, 5]];
    let out = assemble_blob(&chunks, Some(5), 10).unwrap();
    assert_eq!(out, vec![1u8, 2, 3, 4, 5]);
}

#[test]
fn stream_at_exact_ceiling_is_returned() {
    let chunks = vec![vec![0u8; 4], vec![0u8; 6]];
    let out = assemble_blob(&chunks, Some(10), 10).unwrap();
    assert_eq!(out.len(), 10);
}

#[test]
fn oversize_stream_aborts_with_oversize() {
    let chunks = vec![vec![0u8; 6], vec![0u8; 6]];
    assert_eq!(assemble_blob(&chunks, None, 10), Err(BlobFetchError::Oversize));
}

#[test]
fn declared_length_does_not_bypass_the_ceiling() {
    // A lying content length changes only the pre-sizing, never the check.
    let chunks = vec![vec![0u8; 11]];
    assert_eq!(assemble_blob(&chunks, Some(1), 10), Err(BlobFetchError::Oversize));
}

#[test]
fn push_chunk_aborts_before_exceeding_in_memory() {
    let mut buf = BlobBuffer::new(None, 4);
    assert!(buf.push_chunk(&vec![1u8, 2, 3]).is_ok());
    assert_eq!(buf.push_chunk(&vec![4u8, 5]), Err(BlobFetchError::Oversize));
    // The buffer is exactly as it was before the oversize chunk.
    assert_eq!(buf.into_bytes(), vec![1u8, 2, 3]);
}

#[test]
fn fetch_status_codes() {
    assert_eq!(blob_fetch_status(&Ok(vec![1u8])), 200);
    assert_eq!(blob_fetch_status(&Err(BlobFetchError::Oversize)), 413);
    assert_eq!(blob_fetch_status(&Err(BlobFetchError::Upstream)), 502);
}
