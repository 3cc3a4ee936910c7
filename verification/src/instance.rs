//! The identity of this installation.

use crate::ident::{is_random_uuid, random_uuid};
use crate::text::{lowercase, lowercase_text, option_text};
use vstd::prelude::*;

verus! {

/// Identifier, display name, the peers allowed so far and the group of
/// this installation. An empty allow-list admits everyone.
#[derive(Debug, Clone)]
pub struct Instance {
    pub id: u128,
    pub device_name: String,
    pub allowed_peers: Vec<u128>,
    pub group: Option<String>,
}

/// `hostname::get()`, when the name is valid Unicode. Nothing is known of
/// the name: it is the machine's.
#[verifier::external_body]
pub(crate) fn host_name() -> (name: Option<String>) {
    match hostname::get() {
        Ok(name) => name.into_string().ok(),
        Err(_) => None,
    }
}

/// The name an instance goes by when the host has none.
pub open spec fn fallback_device_name() -> Seq<char> {
    "cursedboard"@
}

/// The group of a user: the user's name in lower case, `default` when
/// there is no user.
pub open spec fn group_of_user(user: Option<Seq<char>>) -> Seq<char> {
    match user {
        Some(name) => lowercase_text(name),
        None => "default"@,
    }
}

/// What the identity file held when it was looked for.
#[derive(Debug, Clone)]
pub enum StoredIdentity {
    /// There is no file.
    Absent,
    /// There is a file, and it does not read.
    Damaged,
    /// The identity that the file holds.
    Found(Instance),
}

/// What to run with.
#[derive(Debug, Clone)]
pub enum Identity {
    /// The stored identity, as it is.
    Stored(Instance),
    /// A new identity, which is to be written before it is used.
    Created(Instance),
    /// None: the stored identity is damaged, and it is not replaced.
    Refused,
}

impl Instance {
    /// The identity to run with, given what the identity file held. An
    /// identity is made only where there is no file: a stored identifier
    /// is never made anew.
    pub fn load_or_create(stored: StoredIdentity) -> (identity: Identity)
        ensures
            match stored {
                StoredIdentity::Found(i) => identity == Identity::Stored(i),
                StoredIdentity::Damaged => identity is Refused,
                StoredIdentity::Absent => identity matches Identity::Created(i)
                    && is_random_uuid(i.id) && i.allowed_peers@.len() == 0 && i.group is None,
            },
    {
        match stored {
            StoredIdentity::Found(i) => Identity::Stored(i),
            StoredIdentity::Damaged => Identity::Refused,
            StoredIdentity::Absent => Identity::Created(Instance::create_new()),
        }
    }

    /// A fresh identity: a random version-4 identifier and the host's name.
    pub fn create_new() -> (instance: Instance)
        ensures
            is_random_uuid(instance.id),
            instance.allowed_peers@ == Seq::<u128>::empty(),
            instance.group is None,
    {
        Instance::with_identity(random_uuid(), host_name())
    }

    /// The identity with the given identifier, named after the host where
    /// it has a name.
    pub fn with_identity(id: u128, host: Option<String>) -> (instance: Instance)
        ensures
            instance.id == id,
            instance.device_name@ == match host {
                Some(name) => name@,
                None => fallback_device_name(),
            },
            instance.allowed_peers@ == Seq::<u128>::empty(),
            instance.group is None,
    {
        let device_name = match host {
            Some(name) => name,
            None => "cursedboard".to_string(),
        };
        Instance { id, device_name, allowed_peers: Vec::new(), group: None }
    }

    /// Whether `peer_id` is on the allow-list, or the list is empty.
    pub fn is_peer_allowed(&self, peer_id: &u128) -> (allowed: bool)
        ensures
            allowed == (self.allowed_peers@.len() == 0 || self.allowed_peers@.contains(*peer_id)),
    {
        self.allowed_peers.len() == 0 || self.lists(*peer_id)
    }

    fn lists(&self, peer_id: u128) -> (found: bool)
        ensures
            found == self.allowed_peers@.contains(peer_id),
    {
        let n: usize = self.allowed_peers.len();
        let mut i: usize = 0;
        while i < n
            invariant
                i <= n,
                n == self.allowed_peers@.len(),
                forall|j: int| 0 <= j < i ==> self.allowed_peers@[j] != peer_id,
            decreases n - i,
        {
            if self.allowed_peers[i] == peer_id {
                return true;
            }
            i = i + 1;
        }
        false
    }

    /// Puts `peer_id` on the allow-list unless it is there. Says whether
    /// the list changed, which is when the identity is to be saved.
    pub fn add_peer(&mut self, peer_id: u128) -> (added: bool)
        ensures
            added == !old(self).allowed_peers@.contains(peer_id),
            final(self).allowed_peers@ == if added {
                old(self).allowed_peers@.push(peer_id)
            } else {
                old(self).allowed_peers@
            },
            final(self).id == old(self).id,
            final(self).device_name == old(self).device_name,
            final(self).group == old(self).group,
    {
        if self.lists(peer_id) {
            false
        } else {
            self.allowed_peers.push(peer_id);
            true
        }
    }

    /// The group that a user gets when none is configured.
    pub fn default_group(user: Option<String>) -> (group: String)
        ensures
            group@ == group_of_user(option_text(user)),
    {
        match user {
            Some(name) => lowercase(name.as_str()),
            None => "default".to_string(),
        }
    }

    /// The configured group, or else the default group of `user`.
    pub fn get_group(&self, user: Option<String>) -> (group: String)
        ensures
            group@ == match self.group {
                Some(g) => g@,
                None => group_of_user(option_text(user)),
            },
    {
        match &self.group {
            Some(g) => g.clone(),
            None => Instance::default_group(user),
        }
    }
}

} // verus!
