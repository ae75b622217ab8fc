use bytes::Bytes;
use spider::spool::{route_for, spill_file_path, ChunkRoute, DiskSpool, MEMORY_LIMIT};

#[test]
fn spill_path_percent_encodes_url() {
    assert_eq!(
        spill_file_path("/tmp/spider/17", "https://a.b/c?d=e"),
        "/tmp/spider/17https%3A%2F%2Fa%2Eb%2Fc%3Fd%3De"
    );
}

#[test]
fn spill_path_encodes_non_ascii_bytes() {
    assert_eq!(spill_file_path("", "é-x_Y~9"), "%C3%A9%2Dx%5FY%7E9");
}

#[test]
fn spill_paths_of_different_urls_differ() {
    let a = spill_file_path("/tmp/", "https://a.b/c");
    let b = spill_file_path("/tmp/", "https://a.b/c/");
    assert_ne!(a, b);
}

#[test]
fn route_for_capacity_rule() {
    assert!(matches!(route_for(false, 0, 0, "/t/", "x"), ChunkRoute::Memory));
    assert!(matches!(route_for(false, 10, MEMORY_LIMIT - 1, "/t/", "x"), ChunkRoute::Memory));
    match route_for(false, 10, MEMORY_LIMIT, "/t/", "x") {
        ChunkRoute::OpenFile { path } => assert_eq!(path, "/t/x"),
        _ => panic!("a full buffer spills"),
    }
    assert!(matches!(route_for(true, 0, 0, "/t/", "x"), ChunkRoute::AppendFile));
    assert!(matches!(route_for(true, 3, 0, "/t/", "x"), ChunkRoute::Memory));
}

#[test]
fn small_body_stays_in_memory() {
    let mut spool = DiskSpool::new();
    for chunk in [&b"abc"[..], &b"def"[..]] {
        match spool.route("/tmp/", "https://a.b") {
            ChunkRoute::Memory => spool.buffer(Bytes::copy_from_slice(chunk)),
            _ => panic!("a fresh buffer keeps chunks in memory"),
        }
    }
    assert!(!spool.is_spilled());
    assert_eq!(spool.pending(), b"abcdef");
    let body = spool.finish(Vec::new());
    assert_eq!(&body[..], b"abcdef");
}

/// Feeds chunks through the spool as the fetcher does, with a file kept in
/// memory; `fail_append` names the appends (by chunk index) whose write fails.
fn spool_body(chunks: &[Vec<u8>], fail_append: &[usize]) -> (Bytes, bool) {
    let mut spool = DiskSpool::new();
    let mut file: Vec<u8> = Vec::new();
    for (i, chunk) in chunks.iter().enumerate() {
        let text = Bytes::copy_from_slice(chunk);
        match spool.route("/tmp/", "https://a.b") {
            ChunkRoute::Memory => spool.buffer(text),
            ChunkRoute::OpenFile { path } => {
                assert_eq!(path, "/tmp/https%3A%2F%2Fa%2Eb");
                spool.file_opened(path);
                spool.buffer(text);
                file.extend_from_slice(spool.pending());
                spool.flushed();
            }
            ChunkRoute::AppendFile => {
                if fail_append.contains(&i) {
                    spool.buffer(text);
                } else {
                    file.extend_from_slice(&text);
                    spool.appended(&text);
                }
            }
        }
    }
    let spilled = spool.is_spilled();
    (spool.finish(file), spilled)
}

#[test]
fn spilled_body_keeps_every_chunk_in_order() {
    let chunks = vec![vec![b'a'; 8192], b"b".to_vec()];
    let (body, spilled) = spool_body(&chunks, &[]);
    assert!(spilled);
    assert_eq!(&body[..], &chunks.concat()[..]);
}

#[test]
fn spilled_body_with_later_appends() {
    let chunks = vec![vec![b'a'; 9000], b"b".to_vec(), b"cd".to_vec(), b"e".to_vec()];
    let (body, spilled) = spool_body(&chunks, &[]);
    assert!(spilled);
    assert_eq!(&body[..], &chunks.concat()[..]);
}

#[test]
fn failed_append_keeps_the_chunk_and_the_order() {
    let chunks = vec![vec![b'a'; 9000], b"b".to_vec(), b"c".to_vec(), b"d".to_vec(), b"e".to_vec()];
    let (body, spilled) = spool_body(&chunks, &[2]);
    assert!(spilled);
    assert_eq!(&body[..], &chunks.concat()[..]);
}

#[test]
fn after_a_failed_append_chunks_stay_in_memory() {
    let mut spool = DiskSpool::new();
    spool.buffer(Bytes::from(vec![7u8; MEMORY_LIMIT]));
    let path = match spool.route("/tmp/", "https://a.b") {
        ChunkRoute::OpenFile { path } => path,
        _ => panic!("a full buffer spills"),
    };
    spool.file_opened(path.clone());
    spool.buffer(Bytes::from_static(b"tail"));
    assert_eq!(spool.pending().len(), MEMORY_LIMIT + 4);
    spool.flushed();
    assert!(spool.pending().is_empty());
    assert_eq!(spool.file_path(), path);
    assert!(matches!(spool.route("/tmp/", "https://a.b"), ChunkRoute::AppendFile));
    spool.buffer(Bytes::from_static(b"x"));
    assert!(matches!(spool.route("/tmp/", "https://a.b"), ChunkRoute::Memory));
    let body = spool.finish(b"from disk".to_vec());
    assert_eq!(&body[..], b"from diskx");
}
