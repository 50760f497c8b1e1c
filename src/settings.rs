//! Service configuration, as read from the environment at startup.
use vstd::prelude::*;

verus! {

pub struct Settings {
    pub postgres_dsn: String,
    pub redis_addr: String,
    pub redis_password: String,
    pub minio_addr: String,
    pub minio_public_addr: String,
    pub minio_access_key: String,
    pub minio_secret_key: String,
    pub minio_bucket_name: String,
    pub public_key: String,
    pub private_key: String,
    pub access_secret: String,
    pub refresh_secret: String,
}

impl Settings {
    /// `<public address>/<bucket>/<key>`: where the object store serves the
    /// object `key` publicly.
    pub fn public_object_url(&self, key: &str) -> (r: String)
        ensures
            r@ == self.minio_public_addr@ + seq!['/'] + self.minio_bucket_name@ + seq!['/'] + key@,
    {
        let mut url = self.minio_public_addr.clone();
        url.append("/");
        url.append(self.minio_bucket_name.as_str());
        url.append("/");
        url.append(key);
        proof {
            reveal_strlit("/");
            assert(url@ =~= self.minio_public_addr@ + seq!['/'] + self.minio_bucket_name@ + seq!['/']
                + key@);
        }
        url
    }
}

} // verus!
