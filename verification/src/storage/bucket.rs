//! A bucket handle of the object store, held together with its public
//! fields as read back from it when it was made.
use s3::bucket::Bucket;
use s3::creds::Credentials;
use s3::region::Region;
use vstd::prelude::*;

verus! {

#[verifier::external_type_specification]
#[verifier::external_body]
pub struct ExBucket(Bucket);

/// What a path-style bucket is made from: the bucket name, the custom region
/// (its name and endpoint) and the static credentials.
#[derive(Clone, Debug)]
pub struct BucketSettings {
    pub name: String,
    pub region: String,
    pub endpoint: String,
    pub access_key: String,
    pub secret_key: String,
}

/// The public fields of a bucket handle: its name, its region's name and
/// endpoint when the region is a custom one, its credentials (access key,
/// secret key, security token, session token), and whether it addresses
/// objects path-style.
#[derive(Debug)]
pub struct BucketFields {
    pub name: String,
    pub custom_region: Option<(String, String)>,
    pub credentials: (Option<String>, Option<String>, Option<String>, Option<String>),
    pub path_style: bool,
}

/// A bucket handle and its fields. Only `path_style_bucket` makes one, and it
/// reads the fields back from the handle it holds, so `fields` are always
/// those of `bucket`.
#[derive(Debug)]
pub struct ConfiguredBucket {
    bucket: Bucket,
    fields: BucketFields,
}

impl ConfiguredBucket {
    /// The fields of the handle.
    pub closed spec fn read_fields(self) -> BucketFields {
        self.fields
    }

    /// The handle, for the network calls.
    pub fn bucket(&self) -> &Bucket {
        &self.bucket
    }

    /// The fields of the handle.
    pub fn fields(&self) -> (f: &BucketFields)
        ensures
            *f == self.read_fields(),
    {
        &self.fields
    }
}

/// `f` are the fields of a path-style bucket made from `s`: the name, a
/// custom region of that name and endpoint, the two keys and no token.
pub open spec fn fields_made_from(f: BucketFields, s: BucketSettings) -> bool {
    &&& f.name@ == s.name@
    &&& f.custom_region matches Some((r, e)) && r@ == s.region@ && e@ == s.endpoint@
    &&& f.credentials.0 matches Some(k) && k@ == s.access_key@
    &&& f.credentials.1 matches Some(k) && k@ == s.secret_key@
    &&& f.credentials.2 is None
    &&& f.credentials.3 is None
    &&& f.path_style
}

/// Calls `s3::bucket::Bucket::new_with_path_style` with the bucket name,
/// `Region::Custom { region, endpoint }` and credentials made of the access
/// and secret key without tokens, then reads the handle's public fields back.
/// In rust-s3 0.27 that function always returns `Ok`, storing its arguments
/// as they are with path-style addressing on; the contract claims that, over
/// the fields read back.
#[verifier::external_body]
pub(crate) fn path_style_bucket(s: &BucketSettings) -> (r: ConfiguredBucket)
    ensures
        fields_made_from(r.read_fields(), *s),
{
    let creds = Credentials { access_key: Some(s.access_key.clone()), secret_key: Some(s.secret_key.clone()), security_token: None, session_token: None };
    let region = Region::Custom { region: s.region.clone(), endpoint: s.endpoint.clone() };
    let bucket = Bucket::new_with_path_style(&s.name, region, creds).unwrap();
    let custom_region = match &bucket.region {
        Region::Custom { region, endpoint } => Some((region.clone(), endpoint.clone())),
        _ => None,
    };
    let c = bucket.credentials.clone();
    let credentials = (c.access_key, c.secret_key, c.security_token, c.session_token);
    let path_style = bucket.is_path_style();
    let name = bucket.name.clone();
    ConfiguredBucket { fields: BucketFields { name, custom_region, credentials, path_style }, bucket }
}

} // verus!
