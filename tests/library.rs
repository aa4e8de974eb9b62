use file_upload::digest::final_name;
use file_upload::access::code_allows;
use file_upload::names::{file_extension, rand_str};
use file_upload::sink::{StreamingSink, WriteStep};
use file_upload::storage::{delete_reply, delete_target, is_alphanumeric, path_in_storage};
use file_upload::upload::{is_file_field, Publication, Upload};
use sha2::{Digest, Sha512_224};

fn expected_name(content: &[u8], ext: &str) -> String {
    let mut name = base64_url::encode(Sha512_224::digest(content).as_slice());
    name.push_str(ext);
    name
}

/// Writes every chunk through the upload, emulating a file that takes at
/// most `max_write` bytes per write; returns what the file holds.
fn run_upload(u: &mut Upload, chunks: &[&[u8]], max_write: usize) -> Vec<u8> {
    let mut file: Vec<u8> = Vec::new();
    for chunk in chunks {
        let mut step = u.accept_chunk(chunk);
        loop {
            match step {
                WriteStep::Write { offset, start } => {
                    let offset = offset as usize;
                    let n = std::cmp::min(max_write, chunk.len() - start);
                    if file.len() < offset + n {
                        file.resize(offset + n, 0);
                    }
                    file[offset..offset + n].copy_from_slice(&chunk[start..start + n]);
                    step = u.record_write(Some(n));
                }
                WriteStep::Done => break,
                WriteStep::Failed => panic!("write failed"),
            }
        }
    }
    file
}

fn upload_bytes(chunks: &[&[u8]], filename: Option<&str>, max_write: usize) -> (Publication, Vec<u8>) {
    let mut u = Upload::start("", None, filename).unwrap();
    let file = run_upload(&mut u, chunks, max_write);
    (u.finish(), file)
}

#[test]
fn open_access_allows_everything() {
    assert!(code_allows("", None));
    assert!(code_allows("", Some("anything")));
    assert!(code_allows("", Some("")));
}

#[test]
fn configured_code_needs_exact_match() {
    assert!(code_allows("secret", Some("secret")));
    assert!(!code_allows("secret", Some("wrong")));
    assert!(!code_allows("secret", Some("secre")));
    assert!(!code_allows("secret", Some("secrets")));
    assert!(!code_allows("secret", Some("")));
    assert!(!code_allows("secret", None));
    assert!(code_allows("pässwörd", Some("pässwörd")));
    assert!(!code_allows("pässwörd", Some("passwörd")));
}

#[test]
fn temp_names_are_32_letters_a_to_y() {
    for _ in 0..200 {
        let s = rand_str();
        assert_eq!(s.chars().count(), 32);
        assert!(s.chars().all(|c| ('a'..='y').contains(&c)));
    }
    assert_ne!(rand_str(), rand_str());
}

#[test]
fn extension_after_last_dot() {
    assert_eq!(file_extension(Some("foo.txt")), ".txt");
    assert_eq!(file_extension(Some("archive.tar.gz")), ".gz");
    assert_eq!(file_extension(Some(".bashrc")), ".bashrc");
    assert_eq!(file_extension(Some("x.PNG")), ".PNG");
}

#[test]
fn extension_empty_cases() {
    assert_eq!(file_extension(Some("README")), "");
    assert_eq!(file_extension(Some("")), "");
    assert_eq!(file_extension(Some("trailing.")), "");
    assert_eq!(file_extension(None), "");
}

#[test]
fn final_name_encodes_digest() {
    assert_eq!(final_name(b"hello", ".txt"), "aGVsbG8.txt");
    assert_eq!(final_name(&[0xfb, 0xff], ""), "-_8");
    assert_eq!(final_name(&[], ".a"), ".a");
}

#[test]
fn digest_name_known_vector() {
    // SHA-512/224 of "abc", from the published test vectors.
    let digest: [u8; 28] = [
        0x46, 0x34, 0x27, 0x0f, 0x70, 0x7b, 0x6a, 0x54, 0xda, 0xae, 0x75, 0x30, 0x46, 0x08, 0x42,
        0xe2, 0x0e, 0x37, 0xed, 0x26, 0x5c, 0xee, 0xe9, 0xa4, 0x3e, 0x89, 0x24, 0xaa,
    ];
    let (p, _) = upload_bytes(&[b"a", b"bc"], Some("x.bin"), 64);
    assert_eq!(p.name, format!("{}.bin", base64_url::encode(&digest)));
    assert_eq!(p.name.len(), 38 + 4);
}

#[test]
fn sink_hashes_every_chunk_and_advances() {
    let mut s = StreamingSink::new();
    match s.accept(b"hel") {
        WriteStep::Write { offset, start } => assert_eq!((offset, start), (0, 0)),
        _ => panic!("expected a write"),
    }
    assert!(matches!(s.record_write(Some(3)), WriteStep::Done));
    match s.accept(b"lo") {
        WriteStep::Write { offset, start } => assert_eq!((offset, start), (3, 0)),
        _ => panic!("expected a write"),
    }
    assert!(matches!(s.record_write(Some(2)), WriteStep::Done));
    assert_eq!(s.finish(), Sha512_224::digest(b"hello").to_vec());
}

#[test]
fn sink_short_write_asks_for_rest() {
    let mut s = StreamingSink::new();
    s.accept(b"abcdef");
    match s.record_write(Some(4)) {
        WriteStep::Write { offset, start } => assert_eq!((offset, start), (4, 4)),
        _ => panic!("expected the rest"),
    }
    assert!(matches!(s.record_write(Some(2)), WriteStep::Done));
}

#[test]
fn sink_failures() {
    let mut s = StreamingSink::new();
    s.accept(b"abc");
    assert!(matches!(s.record_write(Some(0)), WriteStep::Failed));
    assert!(matches!(s.record_write(None), WriteStep::Failed));
    assert!(matches!(s.record_write(Some(4)), WriteStep::Failed));
    let mut e = StreamingSink::new();
    assert!(matches!(e.accept(b""), WriteStep::Done));
    assert!(matches!(e.record_write(None), WriteStep::Done));
}

#[test]
fn upload_hello_txt() {
    let (p, file) = upload_bytes(&[b"hello"], Some("foo.txt"), 4096);
    assert_eq!(p.name, expected_name(b"hello", ".txt"));
    assert_eq!(p.final_path, format!("static/{}", p.name));
    assert!(p.temp_path.starts_with("static/"));
    assert_eq!(p.temp_path.len(), "static/".len() + 32);
    assert_eq!(file, b"hello");
}

#[test]
fn upload_without_dot_has_bare_digest_name() {
    let (p, _) = upload_bytes(&[b"data"], Some("Makefile"), 4096);
    assert_eq!(p.name, expected_name(b"data", ""));
    let (q, _) = upload_bytes(&[b"data"], None, 4096);
    assert_eq!(q.name, p.name);
}

#[test]
fn upload_denied_without_code() {
    assert!(Upload::start("secret", Some("wrong"), Some("a.txt")).is_none());
    assert!(Upload::start("secret", None, Some("a.txt")).is_none());
    assert!(Upload::start("secret", Some("secret"), Some("a.txt")).is_some());
}

#[test]
fn only_file_field_is_stored() {
    assert!(is_file_field("file"));
    assert!(!is_file_field("notfile"));
    assert!(!is_file_field("File"));
    assert!(!is_file_field(""));
}

#[test]
fn same_mebibyte_twice_same_name() {
    let data: Vec<u8> = (0..1024 * 1024).map(|i: u32| (i * 31 % 251) as u8).collect();
    let chunks: Vec<&[u8]> = data.chunks(8192).collect();
    let (a, fa) = upload_bytes(&chunks, Some("blob.bin"), 3000);
    let (b, fb) = upload_bytes(&[&data], Some("blob.bin"), 1 << 20);
    assert_eq!(a.name, b.name);
    assert_eq!(a.name, expected_name(&data, ".bin"));
    assert_eq!(fa, data);
    assert_eq!(fb, data);
}

#[test]
fn uploaded_content_is_file_content() {
    let (_, file) = upload_bytes(&[b"ab", b"", b"cdefgh", b"i"], Some("t.txt"), 2);
    assert_eq!(file, b"abcdefghi");
}

#[test]
fn delete_rejects_traversal() {
    assert_eq!(delete_target("", None, "abcd", "../etc_passwd"), None);
    assert_eq!(delete_target("", None, "..", "txt"), None);
    assert_eq!(delete_target("", None, "a/b", "txt"), None);
    assert_eq!(delete_target("", None, "ab", "t\\x"), None);
    assert_eq!(delete_target("", None, "a-b", "txt"), None);
    assert_eq!(delete_reply(false), "false");
}

#[test]
fn delete_valid_name() {
    assert_eq!(delete_target("", None, "abc123", "txt"), Some(String::from("static/abc123.txt")));
    assert_eq!(delete_target("k", Some("k"), "Q9", "png"), Some(String::from("static/Q9.png")));
    assert_eq!(delete_target("k", Some("x"), "Q9", "png"), None);
    assert_eq!(delete_reply(true), "true");
}

#[test]
fn delete_round_trip_on_upload() {
    let (p, _) = upload_bytes(&[b"round trip"], Some("r.txt"), 4096);
    let (hash, ext) = p.name.rsplit_once('.').unwrap();
    let target = delete_target("", None, hash, ext);
    if is_alphanumeric(hash) {
        assert_eq!(target, Some(p.final_path.clone()));
    } else {
        assert_eq!(target, None);
    }
}

#[test]
fn alphanumeric_check() {
    assert!(is_alphanumeric("abcXYZ019"));
    assert!(is_alphanumeric(""));
    assert!(!is_alphanumeric("a.b"));
    assert!(!is_alphanumeric("é"));
    assert_eq!(path_in_storage("x"), "static/x");
}
