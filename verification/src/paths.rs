//! Where the local state lives: a `public` directory of static assets and a
//! `data` directory holding the VAPID key and the saved subscription.

use vstd::prelude::*;

verus! {

/// Address on which the server listens unless told otherwise.
pub const DEFAULT_BIND: &'static str = "127.0.0.1:8787";

/// File name of the saved VAPID private key.
pub const PRIVATE_KEY_FILE: &'static str = "vapid-private.key";

/// File name of the saved subscription.
pub const SUBSCRIPTION_FILE: &'static str = "subscription.json";

/// The path that `std::path::Path::join` forms from a base and a relative name.
pub uninterp spec fn joined_path(base: Seq<char>, name: Seq<char>) -> Seq<char>;

/// `Path::new(base).join(name)`, as text. Joining UTF-8 text gives UTF-8
/// text, so the conversion back loses nothing. How the parts are separated is
/// the platform's and is not stated.
#[verifier::external_body]
fn join_path(base: &str, name: &str) -> (p: String)
    ensures
        p@ == joined_path(base@, name@),
{
    std::path::Path::new(base).join(name).to_string_lossy().into_owned()
}

/// The two directories of the application.
#[derive(Debug)]
pub struct Paths {
    /// Static assets served to the browser.
    pub public_dir: String,
    /// Local state: the VAPID key and the subscription.
    pub data_dir: String,
}

impl Paths {
    /// The directories under a root directory.
    pub fn from_root(root: &str) -> (p: Paths)
        ensures
            p.public_dir@ == joined_path(root@, "public"@),
            p.data_dir@ == joined_path(root@, "data"@),
    {
        Paths { public_dir: join_path(root, "public"), data_dir: join_path(root, "data") }
    }

    /// Where the VAPID private key is saved.
    pub fn private_key(&self) -> (p: String)
        ensures
            p@ == joined_path(self.data_dir@, PRIVATE_KEY_FILE@),
    {
        join_path(self.data_dir.as_str(), PRIVATE_KEY_FILE)
    }

    /// Where the subscription is saved.
    pub fn subscription(&self) -> (p: String)
        ensures
            p@ == joined_path(self.data_dir@, SUBSCRIPTION_FILE@),
    {
        join_path(self.data_dir.as_str(), SUBSCRIPTION_FILE)
    }
}

} // verus!
