use actix_ws_redis_protobuf::upload::{gcs_file_path, upload_responses, UploadResponse};

#[test]
fn filelink_substitutes_the_bucket_scheme() {
    let r = UploadResponse::new("gs://electric-assets/pic.png".to_string(), 42);
    assert_eq!(r.filepath, "gs://electric-assets/pic.png");
    assert_eq!(r.filelink, "http://storage.googleapis.com/electric-assets/pic.png");
    assert_eq!(r.filesize, 42);
}

#[test]
fn every_occurrence_of_the_scheme_is_replaced() {
    let r = UploadResponse::new("gs://a/gs://b".to_string(), 1);
    assert_eq!(
        r.filelink,
        "http://storage.googleapis.com/a/http://storage.googleapis.com/b"
    );
}

#[test]
fn path_without_the_scheme_is_kept_as_the_link() {
    let r = UploadResponse::new("local/pic.png".to_string(), 7);
    assert_eq!(r.filelink, "local/pic.png");
}

#[test]
fn named_upload_goes_into_the_assets_bucket() {
    assert_eq!(
        gcs_file_path(Some("hamlet.txt")),
        "gs://electric-assets/hamlet.txt"
    );
}

#[test]
fn unnamed_upload_falls_back_to_a_scratch_file() {
    assert_eq!(gcs_file_path(None), "temp.txt");
}

#[test]
fn one_response_per_collected_part() {
    let items = vec![
        ("gs://electric-assets/a".to_string(), 10i64),
        ("gs://electric-assets/b".to_string(), 20i64),
    ];
    let rs = upload_responses(items);
    assert_eq!(rs.len(), 2);
    assert_eq!(rs[0].filelink, "http://storage.googleapis.com/electric-assets/a");
    assert_eq!(rs[0].filesize, 10);
    assert_eq!(rs[1].filelink, "http://storage.googleapis.com/electric-assets/b");
    assert_eq!(rs[1].filesize, 20);
}
