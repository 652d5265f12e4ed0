use podcast_publisher::upload::{
    artifact_key, content_type_from_guess, feed_key, prepare_upload, public_url,
    resolve_content_type, UploadProgress,
};

#[test]
fn mp3_key_without_guess_is_mpeg_audio() {
    assert_eq!(content_type_from_guess("p/artifacts/2022-01-01.mp3", None), "audio/mpeg");
}

#[test]
fn unknown_key_without_guess_is_octet_stream() {
    assert_eq!(content_type_from_guess("p/thing.zzqq", None), "application/octet-stream");
}

#[test]
fn guess_is_kept() {
    assert_eq!(content_type_from_guess("a.mp3", Some("text/plain".to_owned())), "text/plain");
}

#[test]
fn sniffed_content_types() {
    assert_eq!(resolve_content_type("p/artifacts/x.mp3"), "audio/mpeg");
    assert_eq!(resolve_content_type("p/podcast.xml"), "text/xml");
    assert_eq!(resolve_content_type("p/thing.zzqq"), "application/octet-stream");
    assert_eq!(resolve_content_type("p/noext"), "application/octet-stream");
}

#[test]
fn url_and_keys() {
    assert_eq!(public_url("b", "s3.example.com", "p/podcast.xml"), "https://b.s3.example.com/p/podcast.xml");
    assert_eq!(artifact_key("p", "2022-01-02"), "p/artifacts/2022-01-02.mp3");
    assert_eq!(feed_key("p"), "p/podcast.xml");
}

#[test]
fn upload_request_fields() {
    let r = prepare_upload("b", "p/a.mp3", 42);
    assert_eq!(r.bucket, "b");
    assert_eq!(r.key, "p/a.mp3");
    assert_eq!(r.acl, "public-read");
    assert_eq!(r.content_type, "audio/mpeg");
    assert_eq!(r.size, 42);
}

#[test]
fn progress_sums_to_size() {
    let mut p = UploadProgress::new(10);
    let mut reported = vec![];
    for amount in [3u64, 4, 3] {
        reported.push(p.advance(amount).unwrap());
    }
    assert_eq!(reported, vec![3, 7, 10]);
    assert!(p.is_complete());
}

#[test]
fn progress_refuses_overrun() {
    let mut p = UploadProgress::new(5);
    assert_eq!(p.advance(4), Some(4));
    assert_eq!(p.advance(2), None);
    assert_eq!(p.transferred, 4);
    assert!(!p.is_complete());
}
