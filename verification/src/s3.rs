use vstd::prelude::*;
use vstd::string::*;

verus! {

/// Where one object lives in the relay store.
#[derive(Debug, PartialEq, Eq)]
pub struct S3Url {
    pub bucket: String,
    pub key: String,
}

/// The mathematical content of an `S3Url`.
pub ghost struct S3UrlView {
    pub bucket: Seq<char>,
    pub key: Seq<char>,
}

impl S3UrlView {
    /// The address of the object: `s3://<bucket>/<key>`.
    pub open spec fn address(self) -> Seq<char> {
        "s3://"@ + self.bucket + "/"@ + self.key
    }
}

impl View for S3Url {
    type V = S3UrlView;

    open spec fn view(&self) -> S3UrlView {
        S3UrlView { bucket: self.bucket@, key: self.key@ }
    }
}

impl Clone for S3Url {
    fn clone(&self) -> (copy: Self)
        ensures
            copy@ == self@,
    {
        S3Url { bucket: self.bucket.clone(), key: self.key.clone() }
    }
}

impl S3Url {
    /// Any two strings make a location; an empty one is refused only later,
    /// by the relay store.
    pub fn new(bucket: &str, key: &str) -> (url: Self)
        ensures
            url@ == (S3UrlView { bucket: bucket@, key: key@ }),
    {
        S3Url { bucket: bucket.to_owned(), key: key.to_owned() }
    }

    pub fn url(&self) -> (address: String)
        ensures
            address@ == self@.address(),
    {
        let mut address = String::from_str("s3://");
        address.append(self.bucket.as_str());
        address.append("/");
        address.append(self.key.as_str());
        address
    }
}

} // verus!
