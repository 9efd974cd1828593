use sscp::error::ErrorKind;
use sscp::transfer::{make_hub, Hub, LocalUsingS3Hub, SsmEc2UsingS3Hub};

#[test]
fn a_plain_path_is_local() {
    let hub = make_hub("/tmp/a.txt").unwrap();
    assert_eq!(hub, Hub::Local(LocalUsingS3Hub::new("/tmp/a.txt".to_string())));
    match hub {
        Hub::Local(local) => assert_eq!(local.path(), "/tmp/a.txt"),
        Hub::SsmEc2(_) => panic!("a path without a colon is local"),
    }
}

#[test]
fn instance_and_path_are_remote() {
    let hub = make_hub("i-0123456789abcdef0:/home/ec2-user/a.txt").unwrap();
    match hub {
        Hub::SsmEc2(remote) => {
            assert_eq!(remote.instance_id(), "i-0123456789abcdef0");
            assert_eq!(remote.path(), "/home/ec2-user/a.txt");
        },
        Hub::Local(_) => panic!("a path-spec with one colon is remote"),
    }
}

#[test]
fn two_colons_are_a_parse_error() {
    let error = make_hub("i-1:a:b").unwrap_err();
    assert_eq!(error.kind(), ErrorKind::Parse);
    assert_eq!(error.message(), "i-1:a:b is not expected");
}

#[test]
fn many_colons_are_a_parse_error() {
    let error = make_hub(":::").unwrap_err();
    assert_eq!(error.kind(), ErrorKind::Parse);
    assert_eq!(error.message(), "::: is not expected");
}

#[test]
fn the_empty_path_spec_is_a_local_empty_path() {
    assert_eq!(make_hub("").unwrap(), Hub::Local(LocalUsingS3Hub::new(String::new())));
}

#[test]
fn a_lone_colon_is_remote_with_empty_parts() {
    assert_eq!(
        make_hub(":").unwrap(),
        Hub::SsmEc2(SsmEc2UsingS3Hub::new(String::new(), String::new()))
    );
}

#[test]
fn a_trailing_colon_leaves_an_empty_path() {
    assert_eq!(
        make_hub("i-1:").unwrap(),
        Hub::SsmEc2(SsmEc2UsingS3Hub::new(String::new(), "i-1".to_string()))
    );
}

#[test]
fn characters_beyond_ascii_are_split_by_character() {
    let hub = make_hub("どこか:ファイル.txt").unwrap();
    assert_eq!(
        hub,
        Hub::SsmEc2(SsmEc2UsingS3Hub::new("ファイル.txt".to_string(), "どこか".to_string()))
    );
    assert_eq!(
        make_hub("ファイル.txt").unwrap(),
        Hub::Local(LocalUsingS3Hub::new("ファイル.txt".to_string()))
    );
}

#[test]
fn new_keeps_what_it_is_given() {
    let local = LocalUsingS3Hub::new("p".to_string());
    assert_eq!(local.path(), "p");
    let remote = SsmEc2UsingS3Hub::new("p".to_string(), "i".to_string());
    assert_eq!(remote.path(), "p");
    assert_eq!(remote.instance_id(), "i");
}
