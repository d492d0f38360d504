//! Session keys by device address.

use vstd::prelude::*;

verus! {

/// The session keys of one device.
#[derive(Debug, Clone)]
pub struct SessionKeys {
    pub dev_addr: u32,
    pub nwk_s_key: [u8; 16],
    pub app_s_key: [u8; 16],
}

/// Session keys of all known devices, in the order in which they were added.
/// Several devices may share one address.
#[derive(Debug)]
pub struct KeyStore {
    pub sessions: Vec<SessionKeys>,
}

impl Default for KeyStore {
    /// An empty store.
    fn default() -> (store: Self)
        ensures
            store.sessions@.len() == 0,
    {
        KeyStore::new()
    }
}

impl KeyStore {
    /// The sessions with the given device address, in store order.
    pub open spec fn matching(&self, dev_addr: u32) -> Seq<SessionKeys> {
        self.sessions@.filter(|s: SessionKeys| s.dev_addr == dev_addr)
    }

    /// An empty store.
    pub fn new() -> (store: Self)
        ensures
            store.sessions@.len() == 0,
    {
        KeyStore { sessions: Vec::new() }
    }

    /// Looks up the sessions of a device address. More than one may come
    /// back, since devices can share an address.
    pub fn lookup(&self, dev_addr: u32) -> (found: Vec<&SessionKeys>)
        ensures
            found@.map_values(|s: &SessionKeys| *s) == self.matching(dev_addr),
    {
        let ghost wanted = |s: SessionKeys| s.dev_addr == dev_addr;
        let ghost deref = |s: &SessionKeys| *s;
        let mut found: Vec<&SessionKeys> = Vec::new();
        let mut i: usize = 0;
        proof {
            reveal(Seq::filter);
            assert(self.sessions@.take(0) =~= Seq::<SessionKeys>::empty());
            assert(found@.map_values(deref) =~= Seq::<SessionKeys>::empty());
        }
        while i < self.sessions.len()
            invariant
                i <= self.sessions@.len(),
                wanted == |s: SessionKeys| s.dev_addr == dev_addr,
                deref == |s: &SessionKeys| *s,
                found@.map_values(deref) == self.sessions@.take(i as int).filter(wanted),
            decreases self.sessions@.len() - i,
        {
            let session = &self.sessions[i];
            let ghost before = found@;
            if session.dev_addr == dev_addr {
                found.push(session);
            }
            proof {
                reveal(Seq::filter);
                let next = self.sessions@.take(i as int + 1);
                assert(next.drop_last() =~= self.sessions@.take(i as int));
                assert(next.last() == *session);
                if session.dev_addr == dev_addr {
                    assert(found@.map_values(deref) =~= before.map_values(deref).push(*session));
                }
            }
            i += 1;
        }
        proof {
            assert(self.sessions@.take(i as int) =~= self.sessions@);
        }
        found
    }
}

} // verus!
