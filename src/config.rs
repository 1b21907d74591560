use vstd::prelude::*;

verus! {

/// A logical group of events under a path prefix.
#[derive(Clone, Debug)]
pub struct WsNamespace {
    pub name: String,
}

impl WsNamespace {
    pub fn new(name: String) -> (r: WsNamespace)
        ensures
            r.name == name,
    {
        WsNamespace { name }
    }
}

/// Settings of the socket layer: the heartbeat interval and the client
/// timeout in seconds, and the namespace served.
#[derive(Clone, Debug)]
pub struct WsIo {
    pub heartbeat_interval: u64,
    pub client_timeout: u64,
    pub namespace: WsNamespace,
}

impl Default for WsIo {
    fn default() -> (r: WsIo)
        ensures
            r.heartbeat_interval == 5,
            r.client_timeout == 10,
            r.namespace.name@ == seq!['/'],
    {
        let name = "/".to_owned();
        proof {
            reveal_strlit("/");
        }
        WsIo { heartbeat_interval: 5, client_timeout: 10, namespace: WsNamespace::new(name) }
    }
}

/// The identities of the connections that are open.
#[derive(Debug)]
pub struct ConnectionRegistry {
    ids: Vec<String>,
}

impl ConnectionRegistry {
    /// The identities, in the order the connections were added.
    pub closed spec fn view(&self) -> Seq<Seq<char>> {
        self.ids@.map_values(|s: String| s@)
    }

    pub fn new() -> (r: ConnectionRegistry)
        ensures
            r.view() == Seq::<Seq<char>>::empty(),
    {
        ConnectionRegistry { ids: Vec::new() }
    }

    pub fn len(&self) -> (r: usize)
        ensures
            r == self.view().len(),
    {
        self.ids.len()
    }

    pub fn contains(&self, id: &String) -> (r: bool)
        ensures
            r == self.view().contains(id@),
    {
        let mut i: usize = 0;
        while i < self.ids.len()
            invariant
                i <= self.ids@.len(),
                forall|k: int| 0 <= k < i ==> self.view()[k] != id@,
            decreases self.ids@.len() - i,
        {
            if self.ids[i] == *id {
                assert(self.view()[i as int] == id@);
                return true;
            }
            i = i + 1;
        }
        false
    }

    /// Adds a connection's identity.
    pub fn add(&mut self, id: String)
        ensures
            final(self).view() == old(self).view().push(id@),
    {
        self.ids.push(id);
        assert(self.view() =~= old(self).view().push(id@));
    }

    /// Removes every entry of a connection's identity; the others keep
    /// their order.
    pub fn remove(&mut self, id: &String)
        ensures
            final(self).view() == old(self).view().filter(|s: Seq<char>| s != id@),
    {
        let ghost before = self.view();
        let mut kept: Vec<String> = Vec::new();
        let mut i: usize = 0;
        while i < self.ids.len()
            invariant
                i <= self.ids@.len(),
                before == self.ids@.map_values(|s: String| s@),
                kept@.map_values(|s: String| s@) == before.subrange(0, i as int).filter(
                    |s: Seq<char>| s != id@,
                ),
            decreases self.ids@.len() - i,
        {
            let ghost sub = before.subrange(0, i + 1);
            assert(sub.drop_last() =~= before.subrange(0, i as int));
            proof {
                reveal(Seq::filter);
            }
            let ghost prev = kept@;
            if self.ids[i] != *id {
                kept.push(self.ids[i].clone());
                assert(kept@.map_values(|s: String| s@) =~= prev.map_values(|s: String| s@).push(
                    before[i as int],
                ));
            }
            i = i + 1;
        }
        assert(before.subrange(0, self.ids@.len() as int) =~= before);
        self.ids = kept;
    }
}

} // verus!
