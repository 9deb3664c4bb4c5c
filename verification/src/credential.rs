//! The credential model: how a provider's secret is supplied, and the
//! per-call table of dynamic secrets.

use vstd::prelude::*;
use crate::secret::{SecretKey, secret_chars};

verus! {

/// How a provider's secret is supplied by deployment configuration.
pub enum Credential {
    /// The secret is baked into deployment configuration.
    Static(SecretKey),
    /// The secret is supplied per call, under this name, in the
    /// [`DynamicCredentialTable`].
    Dynamic(String),
    /// The provider is configured without a static secret.
    Absent,
    /// A test-only stand-in that behaves like `Absent`.
    Missing,
}

/// One named secret of the per-call table.
pub struct CredentialEntry {
    pub name: String,
    pub secret: SecretKey,
}

/// What looking `name` up in `entries` yields: the characters of the first
/// secret stored under that name, if any.
pub open spec fn spec_lookup(entries: Seq<CredentialEntry>, name: Seq<char>) -> Option<Seq<char>>
    decreases entries.len(),
{
    if entries.len() == 0 {
        Option::None
    } else if entries[0].name@ == name {
        Option::Some(secret_chars(entries[0].secret))
    } else {
        spec_lookup(entries.drop_first(), name)
    }
}

/// A per-call mapping from secret name to secret value, owned by the caller,
/// read-only for the duration of one inference call.
pub struct DynamicCredentialTable {
    pub entries: Vec<CredentialEntry>,
}

impl DynamicCredentialTable {
    /// An empty table: no dynamic secret can be resolved from it.
    pub fn new() -> (r: DynamicCredentialTable)
        ensures
            r.entries@.len() == 0,
    {
        DynamicCredentialTable { entries: Vec::new() }
    }

    /// Adds a named secret. An earlier entry under the same name keeps
    /// priority: lookups return the first match.
    pub fn insert(&mut self, name: String, secret: SecretKey)
        ensures
            final(self).entries@ == old(self).entries@.push(
                CredentialEntry { name, secret },
            ),
    {
        self.entries.push(CredentialEntry { name, secret });
    }

    /// Looks a secret up by name; returns the first entry stored under it.
    pub fn get(&self, name: &String) -> (r: Option<&SecretKey>)
        ensures
            r is Some <==> spec_lookup(self.entries@, name@) is Some,
            r matches Some(s) ==> spec_lookup(self.entries@, name@)
                == Option::Some(secret_chars(*s)),
    {
        let n = self.entries.len();
        let mut i: usize = 0;
        proof {
            assert(self.entries@.skip(0) =~= self.entries@);
        }
        while i < n
            invariant
                n == self.entries@.len(),
                i <= n,
                spec_lookup(self.entries@, name@)
                    == spec_lookup(self.entries@.skip(i as int), name@),
            decreases n - i,
        {
            proof {
                assert(self.entries@.skip(i as int).len() > 0);
                assert(self.entries@.skip(i as int)[0] == self.entries@[i as int]);
                assert(self.entries@.skip(i as int).drop_first()
                    =~= self.entries@.skip(i as int + 1));
            }
            if self.entries[i].name.eq(name) {
                return Some(&self.entries[i].secret);
            }
            i = i + 1;
        }
        proof {
            assert(self.entries@.skip(n as int) =~= Seq::<CredentialEntry>::empty());
        }
        None
    }
}

} // verus!
