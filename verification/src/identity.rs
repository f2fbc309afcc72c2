//! Identifiers that tell registration sites apart, and the identity of a
//! registered test.

use std::any::TypeId;
use std::hash::Hash;
use std::hash::Hasher;
use vstd::prelude::*;

verus! {

/// `std::any::TypeId`, carried as an opaque token.
#[verifier::external_type_specification]
#[verifier::external_body]
pub struct ExTypeId(TypeId);

/// A token unique to one registration site and stable across processes of
/// the same executable.
#[derive(Hash, PartialEq, Debug)]
pub struct ForkTestId(TypeId);

impl Clone for ForkTestId {
    fn clone(&self) -> (r: Self)
        ensures
            r == *self,
    {
        ForkTestId(self.0)
    }
}

impl ForkTestId {
    /// The type token this identifier was made from.
    pub closed spec fn token(&self) -> TypeId {
        self.0
    }

    /// Wraps the token of a type declared at the registration site.
    pub fn of(id: TypeId) -> (r: Self)
        ensures
            r.token() == id,
    {
        ForkTestId(id)
    }

    /// The 64-bit digest under which this site is named to a child process.
    pub fn digest(&self) -> (d: u64)
        ensures
            d == site_digest(self.token()),
    {
        fnv_digest(&self.0)
    }
}

/// The state that `fnv::FnvHasher` ends in when a `TypeId` is fed to a
/// fresh hasher through `Hash`. FNV-1a has no seed, so this is a function
/// of the token alone.
pub uninterp spec fn site_digest(token: TypeId) -> u64;

/// Calls `FnvHasher::default`, `<TypeId as Hash>::hash` and
/// `FnvHasher::finish`. Claimed: the result depends on the token only.
#[verifier::external_body]
fn fnv_digest(token: &TypeId) -> (d: u64)
    ensures
        d == site_digest(*token),
{
    let mut hasher = fnv::FnvHasher::default();
    token.hash(&mut hasher);
    hasher.finish()
}

/// A test identity as contracts see it.
pub ghost struct IdentityView {
    /// Digest of the registration site.
    pub site: u64,
    /// Name of the registered body.
    pub name: Seq<char>,
}

/// The pair that names one registered test body: the digest of its
/// registration site and its name.
#[derive(Debug, PartialEq, Eq)]
pub struct TestIdentity {
    /// Digest of the registration site.
    pub site: u64,
    /// Name of the registered body, usually its declaration path.
    pub test_name: String,
}

impl View for TestIdentity {
    type V = IdentityView;

    open spec fn view(&self) -> IdentityView {
        IdentityView { site: self.site, name: self.test_name@ }
    }
}

impl Clone for TestIdentity {
    fn clone(&self) -> (r: Self)
        ensures
            r@ == self@,
    {
        TestIdentity { site: self.site, test_name: self.test_name.clone() }
    }
}

impl TestIdentity {
    /// The identity of the body named `test_name` registered at `fork_id`.
    pub fn new(fork_id: &ForkTestId, test_name: &str) -> (r: Self)
        ensures
            r@ == (IdentityView { site: site_digest(fork_id.token()), name: test_name@ }),
    {
        TestIdentity { site: fork_id.digest(), test_name: test_name.to_owned() }
    }

    /// The identity of the body named `test_name` at the site whose digest
    /// is `site`.
    pub fn from_digest(site: u64, test_name: &str) -> (r: Self)
        ensures
            r@ == (IdentityView { site, name: test_name@ }),
    {
        TestIdentity { site, test_name: test_name.to_owned() }
    }

    /// Whether two identities name the same body at the same site.
    pub fn same_as(&self, other: &TestIdentity) -> (r: bool)
        ensures
            r == (self@ == other@),
    {
        self.site == other.site && self.test_name == other.test_name
    }
}

} // verus!
