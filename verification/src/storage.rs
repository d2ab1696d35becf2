//! The object store: where documents and the index snapshot live.
//!
//! Documents are kept under `<bucket>/data/sbom/<key>`, the snapshot of the
//! index in the single slot `<bucket>/index.sqlite`. This module holds the
//! naming rules and the handle to the bucket; the transfers themselves are
//! made by the caller through [`Storage::bucket`].

use crate::text::same_text;
use crate::text::strip_prefix;
use s3::creds::error::CredentialsError;
pub use s3::creds::Credentials;
use s3::error::S3Error;
use s3::Bucket;
pub use s3::Region;
use vstd::prelude::*;
use vstd::string::StringExecFns;

verus! {

/// A bucket of the object store, opaque to the verifier.
#[verifier::external_type_specification]
#[verifier::external_body]
pub struct ExBucket(Bucket);

/// The region and endpoint of an object store, opaque to the verifier.
#[verifier::external_type_specification]
#[verifier::external_body]
pub struct ExRegion(Region);

/// The keys with which requests are signed, opaque to the verifier.
#[verifier::external_type_specification]
#[verifier::external_body]
pub struct ExCredentials(Credentials);

/// An error of the object store's client.
#[verifier::external_type_specification]
#[verifier::external_body]
pub struct ExS3Error(S3Error);

/// An error in obtaining credentials.
#[verifier::external_type_specification]
#[verifier::external_body]
pub struct ExCredentialsError(CredentialsError);

/// `Bucket::new` assembles the handle from its arguments and contacts nothing.
/// In this version of the client it has no failing path.
pub assume_specification[ Bucket::new ](name: &str, region: Region, credentials: Credentials) -> (r:
    Result<Bucket, S3Error>)
    ensures
        r is Ok,
;

/// `Bucket::with_path_style` copies the handle and switches it to addressing
/// the bucket in the path of the URL.
pub assume_specification[ Bucket::with_path_style ](bucket: &Bucket) -> Bucket;

/// Builds a `Region::Custom` from a region name and an endpoint.
#[verifier::external_body]
fn custom_region(region: String, endpoint: String) -> Region {
    Region::Custom { region, endpoint }
}

/// Builds `Credentials` from the keys and tokens given, with no time at
/// which they expire.
#[verifier::external_body]
fn credentials(
    access_key: Option<String>,
    secret_key: Option<String>,
    security_token: Option<String>,
    session_token: Option<String>,
) -> Credentials {
    Credentials { access_key, secret_key, security_token, session_token, expiration: None }
}

/// The path of the document area inside a bucket.
pub const SBOM_PATH: &'static str = "/data/sbom/";

/// The path of the index snapshot inside a bucket.
pub const INDEX_PATH: &'static str = "/index.sqlite";

/// What is needed to reach a bucket.
pub struct Config {
    bucket_name: String,
    region: Region,
    credentials: Credentials,
}

impl Config {
    /// The name of the bucket.
    pub closed spec fn name(&self) -> Seq<char> {
        self.bucket_name@
    }

    /// The configuration of a local MinIO server as used for testing.
    pub fn new_minio_test() -> (r: Config)
        ensures
            r.name() == "bombastic"@,
    {
        Config {
            bucket_name: String::from_str("bombastic"),
            region: custom_region(
                String::from_str("eu-central-1"),
                String::from_str("http://localhost:9000"),
            ),
            credentials: credentials(
                Some(String::from_str("admin")),
                Some(String::from_str("password")),
                None,
                None,
            ),
        }
    }
}

/// What can go wrong in the object store.
#[derive(Debug)]
pub enum Error {
    Internal,
    Credentials(CredentialsError),
    S3(S3Error),
}

impl Error {
    /// The error in words.
    pub fn message(&self) -> (r: String)
        ensures
            self is Internal ==> r@ == "Internal error"@,
    {
        match self {
            Error::Internal => String::from_str("Internal error"),
            Error::Credentials(e) => e.to_string(),
            Error::S3(e) => e.to_string(),
        }
    }
}

impl From<CredentialsError> for Error {
    fn from(e: CredentialsError) -> (r: Error) {
        Error::Credentials(e)
    }
}

impl vstd::std_specs::convert::FromSpecImpl<CredentialsError> for Error {
    open spec fn obeys_from_spec() -> bool {
        true
    }

    open spec fn from_spec(e: CredentialsError) -> Error {
        Error::Credentials(e)
    }
}

impl From<S3Error> for Error {
    fn from(e: S3Error) -> (r: Error) {
        Error::S3(e)
    }
}

impl vstd::std_specs::convert::FromSpecImpl<S3Error> for Error {
    open spec fn obeys_from_spec() -> bool {
        true
    }

    open spec fn from_spec(e: S3Error) -> Error {
        Error::S3(e)
    }
}

/// A bucket together with the names under which it is addressed.
pub struct Storage {
    bucket: Bucket,
    prefix: String,
    index_prefix: String,
}

impl Storage {
    /// The prefix that the key of every document carries in a notification.
    pub closed spec fn document_prefix(&self) -> Seq<char> {
        self.prefix@
    }

    /// The key under which notifications name the index snapshot.
    pub closed spec fn index_key(&self) -> Seq<char> {
        self.index_prefix@
    }

    /// The bucket that is addressed.
    pub closed spec fn handle(&self) -> Bucket {
        self.bucket
    }

    /// Whether the names are those of the bucket called `bucket_name`.
    pub open spec fn serves(&self, bucket_name: Seq<char>) -> bool {
        &&& self.document_prefix() == bucket_name + SBOM_PATH@
        &&& self.index_key() == bucket_name + INDEX_PATH@
    }

    /// Whether the document prefix and the snapshot key name the same bucket.
    pub open spec fn wf(&self) -> bool {
        exists|bucket_name: Seq<char>| self.serves(bucket_name)
    }

    /// Opens the storage that a configuration describes.
    pub fn new(config: Config) -> (r: Result<Storage, Error>)
        ensures
            r matches Ok(storage) && storage.serves(config.name()) && storage.wf(),
    {
        let prefix = config.bucket_name.clone().concat(SBOM_PATH);
        let index_prefix = config.bucket_name.clone().concat(INDEX_PATH);
        match Bucket::new(config.bucket_name.as_str(), config.region, config.credentials) {
            Ok(bucket) => Ok(Storage { bucket: bucket.with_path_style(), prefix, index_prefix }),
            Err(e) => Err(Error::from(e)),
        }
    }

    /// Whether a notification's key names the index snapshot.
    pub fn is_index(&self, key: &str) -> (r: bool)
        ensures
            r == (key@ == self.index_key()),
    {
        same_text(self.index_prefix.as_str(), key)
    }

    /// The key of a document as the store knows it: what follows the document
    /// prefix in a notification's key. `None` where the key lacks the prefix.
    pub fn extract_key<'m>(&'m self, key: &'m str) -> (r: Option<&'m str>)
        ensures
            r is Some <==> self.document_prefix().is_prefix_of(key@),
            r matches Some(rest) ==> key@ == self.document_prefix() + rest@,
    {
        strip_prefix(key, self.prefix.as_str())
    }

    /// The handle through which objects are transferred.
    pub fn bucket(&self) -> (r: &Bucket)
        ensures
            *r == self.handle(),
    {
        &self.bucket
    }

    /// The path inside the bucket at which a document is kept.
    pub fn document_path(key: &str) -> (r: String)
        ensures
            r@ == SBOM_PATH@ + key@,
    {
        String::from_str(SBOM_PATH).concat(key)
    }
}

/// The key of the index snapshot does not lie in the document area: no
/// notification of the snapshot can be taken for one of a document.
pub proof fn lemma_snapshot_is_no_document(storage: &Storage)
    requires
        storage.wf(),
    ensures
        !storage.document_prefix().is_prefix_of(storage.index_key()),
{
    let bucket_name = choose|bucket_name: Seq<char>| storage.serves(bucket_name);
    let at = bucket_name.len() as int + 1;
    reveal_strlit("/data/sbom/");
    reveal_strlit("/index.sqlite");
    if storage.document_prefix().is_prefix_of(storage.index_key()) {
        assert(storage.index_key().subrange(0, storage.document_prefix().len() as int)[at]
            == storage.document_prefix()[at]);
    }
}

} // verus!
