use kidney_stones::pkt_line::{advertisement_preamble, ref_advertisement_body};
use kidney_stones::routes::git::{
    absorb_chunk, advertised_command, advertisement_content_type, result_content_type,
    served_repo_path, MAX_SIZE,
};

#[test]
fn upload_pack_preamble() {
    assert_eq!(
        advertisement_preamble("git-upload-pack"),
        b"001e# service=git-upload-pack\n0000".to_vec()
    );
}

#[test]
fn receive_pack_preamble() {
    assert_eq!(
        advertisement_preamble("git-receive-pack"),
        b"001f# service=git-receive-pack\n0000".to_vec()
    );
}

#[test]
fn preamble_length_field_matches_line() {
    let svc = "x".repeat(100);
    let out = advertisement_preamble(&svc);
    let field = std::str::from_utf8(&out[..4]).unwrap();
    let len = usize::from_str_radix(field, 16).unwrap();
    assert_eq!(len, 4 + "# service=".len() + svc.len() + 1);
    assert_eq!(&out[out.len() - 4..], b"0000");
    assert_eq!(out.len(), svc.len() + 19);
}

#[test]
fn longest_accepted_service() {
    let svc = "s".repeat(240);
    let out = advertisement_preamble(&svc);
    assert_eq!(&out[..4], b"00ff");
}

#[test]
fn content_types() {
    assert_eq!(
        advertisement_content_type("git-upload-pack"),
        "application/x-git-upload-pack-advertisement"
    );
    assert_eq!(
        result_content_type("git-receive-pack"),
        "application/x-git-receive-pack-result"
    );
}

#[test]
fn command_selection() {
    assert_eq!(advertised_command(&"git-recieve-pack".to_string()), "receive-pack");
    assert_eq!(advertised_command(&"git-receive-pack".to_string()), "upload-pack");
    assert_eq!(advertised_command(&"git-upload-pack".to_string()), "upload-pack");
}

#[test]
fn repo_path_on_disk() {
    assert_eq!(
        served_repo_path("ibx34", "why-no-work"),
        "/home/alfredo/kidney-stones/tests/ibx34/why-no-work"
    );
}

#[test]
fn chunks_are_appended_in_order() {
    let mut body = Vec::new();
    assert!(absorb_chunk(&mut body, b"0032want "));
    assert!(absorb_chunk(&mut body, b"abc"));
    assert_eq!(body, b"0032want abc".to_vec());
}

#[test]
fn chunk_over_limit_is_refused() {
    let mut body = vec![7u8; 10];
    let chunk = vec![1u8; MAX_SIZE - 9];
    assert!(!absorb_chunk(&mut body, &chunk));
    assert_eq!(body, vec![7u8; 10]);
}

#[test]
fn chunk_reaching_limit_exactly_is_kept() {
    let mut body = vec![7u8; 10];
    let chunk = vec![1u8; MAX_SIZE - 10];
    assert!(absorb_chunk(&mut body, &chunk));
    assert_eq!(body.len(), MAX_SIZE);
    assert!(!absorb_chunk(&mut body, b"x"));
    assert_eq!(body.len(), MAX_SIZE);
}

#[test]
fn advertisement_body_appends_refs() {
    let refs = b"003fabc refs/heads/master\n0000";
    let out = ref_advertisement_body("git-upload-pack", refs);
    let mut expected = b"001e# service=git-upload-pack\n0000".to_vec();
    expected.extend_from_slice(refs);
    assert_eq!(out, expected);
}
