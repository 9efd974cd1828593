use sscp::s3::S3Url;

#[test]
fn new_keeps_bucket_and_key() {
    let url = S3Url::new("bucket", "dir/file.txt");
    assert_eq!(url.bucket, "bucket");
    assert_eq!(url.key, "dir/file.txt");
}

#[test]
fn url_joins_scheme_bucket_and_key() {
    let url = S3Url::new("bucket", "dir/file.txt");
    assert_eq!(url.url(), "s3://bucket/dir/file.txt");
}

#[test]
fn url_keeps_the_leading_slash_of_an_absolute_key() {
    let url = S3Url::new("b", "/tmp/a.txt");
    assert_eq!(url.url(), "s3://b//tmp/a.txt");
}

#[test]
fn url_is_the_same_each_time() {
    let url = S3Url::new("b", "k");
    assert_eq!(url.url(), url.url());
}

#[test]
fn empty_parts_are_taken_as_they_are() {
    let url = S3Url::new("", "");
    assert_eq!(url.url(), "s3:///");
}

#[test]
fn url_holds_characters_beyond_ascii() {
    let url = S3Url::new("バケツ", "ファイル.txt");
    assert_eq!(url.url(), "s3://バケツ/ファイル.txt");
}

#[test]
fn clone_is_equal() {
    let url = S3Url::new("b", "k");
    assert_eq!(url.clone(), url);
}
