use vstd::prelude::*;

verus! {

/// The identifier a device registers under.
#[derive(Debug, Clone, Eq)]
pub struct MachineID(pub String);

impl View for MachineID {
    type V = Seq<char>;

    open spec fn view(&self) -> Seq<char> {
        self.0@
    }
}

impl MachineID {
    pub fn new(field0: String) -> (r: Self)
        ensures
            r@ == field0@,
    {
        MachineID(field0)
    }
}

impl PartialEq for MachineID {
    fn eq(&self, other: &Self) -> (r: bool) {
        self.0 == other.0
    }
}

impl vstd::std_specs::cmp::PartialEqSpecImpl for MachineID {
    open spec fn obeys_eq_spec() -> bool {
        true
    }

    open spec fn eq_spec(&self, other: &Self) -> bool {
        self.0@ == other.0@
    }
}

/// Whether a device is connected right now.
#[derive(Debug, Clone, Copy, PartialEq, Eq, Structural)]
pub enum MachineStatus {
    Offline,
    Online,
}

impl MachineStatus {
    pub fn is_online(&self) -> (r: bool)
        ensures
            r == (*self == MachineStatus::Online),
    {
        matches!(self, MachineStatus::Online)
    }

    pub fn is_offline(&self) -> (r: bool)
        ensures
            r == (*self == MachineStatus::Offline),
    {
        matches!(self, MachineStatus::Offline)
    }
}

/// What the broker remembers of a device: its identifier, the last QR code
/// set for it, and whether it is connected.
#[derive(Debug, Clone)]
pub struct Machine {
    pub id: String,
    pub qrcode_url: String,
    pub status: MachineStatus,
}

impl Machine {
    pub fn online(&mut self)
        ensures
            final(self).id@ == old(self).id@,
            final(self).qrcode_url@ == old(self).qrcode_url@,
            final(self).status == MachineStatus::Online,
    {
        self.status = MachineStatus::Online;
    }

    pub fn offline(&mut self)
        ensures
            final(self).id@ == old(self).id@,
            final(self).qrcode_url@ == old(self).qrcode_url@,
            final(self).status == MachineStatus::Offline,
    {
        self.status = MachineStatus::Offline;
    }

    pub fn set_qrcode_url(&mut self, qrcode_url: String)
        ensures
            final(self).id@ == old(self).id@,
            final(self).qrcode_url@ == qrcode_url@,
            final(self).status == old(self).status,
    {
        self.qrcode_url = qrcode_url;
    }
}

/// Whether some entry of the device list belongs to the identifier.
pub open spec fn spec_has_machine(s: Seq<(MachineID, Machine)>, id: Seq<char>) -> bool {
    exists|i: int| 0 <= i < s.len() && (#[trigger] s[i]).0@ == id
}

/// The device the identifier's entry carries.
pub open spec fn spec_machine_of(s: Seq<(MachineID, Machine)>, id: Seq<char>) -> Machine {
    let i = choose|i: int| 0 <= i < s.len() && (#[trigger] s[i]).0@ == id;
    s[i].1
}

/// Whether no identifier holds two entries.
pub open spec fn spec_machines_unique(s: Seq<(MachineID, Machine)>) -> bool {
    forall|i: int, j: int| 0 <= i < j < s.len() ==> (#[trigger] s[i]).0@ != (#[trigger] s[j]).0@
}

/// Every entry of the identifier is the one entry `spec_machine_of` reads.
pub proof fn lemma_machine_unique(s: Seq<(MachineID, Machine)>, id: Seq<char>, i: int)
    requires
        spec_machines_unique(s),
        0 <= i < s.len(),
        s[i].0@ == id,
    ensures
        s[i].1 == spec_machine_of(s, id),
        spec_has_machine(s, id),
{
    let j = choose|j: int| 0 <= j < s.len() && (#[trigger] s[j]).0@ == id;
    if i != j {
        assert(false);
    }
}

/// The device registry: each device at most once.
#[derive(Debug)]
pub struct MachineManager {
    pub map: Vec<(MachineID, Machine)>,
}

impl MachineManager {
    pub fn new() -> (r: MachineManager)
        ensures
            r.map@.len() == 0,
            spec_machines_unique(r.map@),
    {
        MachineManager { map: Vec::new() }
    }

    /// Replaces the whole registry.
    pub fn init_map(&mut self, map: Vec<(MachineID, Machine)>)
        requires
            spec_machines_unique(map@),
        ensures
            final(self).map@ == map@,
    {
        self.map = map;
    }

    /// The index of the identifier's entry, when it has one.
    fn find(&self, id: &MachineID) -> (r: Option<usize>)
        ensures
            match r {
                Some(i) => i < self.map@.len() && self.map@[i as int].0@ == id@,
                None => !spec_has_machine(self.map@, id@),
            },
    {
        let mut i: usize = 0;
        while i < self.map.len()
            invariant
                i <= self.map@.len(),
                forall|j: int| 0 <= j < i ==> (#[trigger] self.map@[j]).0@ != id@,
            decreases self.map@.len() - i,
        {
            if self.map[i].0.0 == id.0 {
                return Some(i);
            }
            i = i + 1;
        }
        None
    }

    /// The stored QR code of a registered device, when it has one.
    pub fn get_qrcode(&self, id: &MachineID) -> (r: Option<String>)
        requires
            spec_machines_unique(self.map@),
        ensures
            match r {
                Some(url) => spec_has_machine(self.map@, id@) && url@ == spec_machine_of(
                    self.map@,
                    id@,
                ).qrcode_url@,
                None => !spec_has_machine(self.map@, id@),
            },
    {
        match self.find(id) {
            Some(i) => {
                proof {
                    lemma_machine_unique(self.map@, id@, i as int);
                }
                Some(self.map[i].1.qrcode_url.clone())
            },
            None => None,
        }
    }

    /// Sets the QR code of a registered device; nothing changes for an
    /// unknown identifier.
    pub fn set_qrcode(&mut self, id: &MachineID, qrcode_url: String)
        requires
            spec_machines_unique(old(self).map@),
        ensures
            spec_machines_unique(final(self).map@),
            final(self).map@.len() == old(self).map@.len(),
            forall|id2: Seq<char>|
                #[trigger] spec_has_machine(final(self).map@, id2) == spec_has_machine(
                    old(self).map@,
                    id2,
                ),
            spec_has_machine(old(self).map@, id@) ==> {
                &&& spec_machine_of(final(self).map@, id@).qrcode_url@ == qrcode_url@
                &&& spec_machine_of(final(self).map@, id@).status == spec_machine_of(
                    old(self).map@,
                    id@,
                ).status
                &&& spec_machine_of(final(self).map@, id@).id@ == spec_machine_of(
                    old(self).map@,
                    id@,
                ).id@
            },
            forall|id2: Seq<char>|
                id2 != id@ && spec_has_machine(old(self).map@, id2)
                    ==> #[trigger] spec_machine_of(final(self).map@, id2) == spec_machine_of(
                    old(self).map@,
                    id2,
                ),
            !spec_has_machine(old(self).map@, id@) ==> final(self).map@ == old(self).map@,
    {
        let found = self.find(id);
        if let Some(i) = found {
            let ghost oldm = self.map@;
            let mut item = self.map.remove(i);
            item.1.set_qrcode_url(qrcode_url);
            self.map.insert(i, item);
            proof {
                assert(self.map@ =~= oldm.update(i as int, self.map@[i as int]));
                self.lemma_frame(oldm, i as int, id@);
            }
        }
    }

    /// After one entry changed under its own key, every other key reads as
    /// before.
    proof fn lemma_frame(&self, oldm: Seq<(MachineID, Machine)>, i: int, id: Seq<char>)
        requires
            spec_machines_unique(oldm),
            0 <= i < oldm.len(),
            oldm[i].0@ == id,
            self.map@.len() == oldm.len(),
            self.map@ == oldm.update(i, self.map@[i]),
            self.map@[i].0@ == id,
        ensures
            spec_machines_unique(self.map@),
            forall|id2: Seq<char>|
                #[trigger] spec_has_machine(self.map@, id2) == spec_has_machine(oldm, id2),
            spec_machine_of(self.map@, id) == self.map@[i].1,
            forall|id2: Seq<char>|
                id2 != id && spec_has_machine(oldm, id2) ==> #[trigger] spec_machine_of(
                    self.map@,
                    id2,
                ) == spec_machine_of(oldm, id2),
    {
        assert forall|id2: Seq<char>| #[trigger] spec_has_machine(self.map@, id2)
            == spec_has_machine(oldm, id2) by {
            if spec_has_machine(oldm, id2) {
                let j = choose|j: int| 0 <= j < oldm.len() && (#[trigger] oldm[j]).0@ == id2;
                assert(self.map@[j].0@ == id2);
            }
            if spec_has_machine(self.map@, id2) {
                let j = choose|j: int|
                    0 <= j < self.map@.len() && (#[trigger] self.map@[j]).0@ == id2;
                assert(oldm[j].0@ == id2);
            }
        }
        lemma_machine_unique(self.map@, id, i);
        assert forall|id2: Seq<char>|
            id2 != id && spec_has_machine(oldm, id2) implies #[trigger] spec_machine_of(
            self.map@,
            id2,
        ) == spec_machine_of(oldm, id2) by {
            let j = choose|j: int| 0 <= j < oldm.len() && (#[trigger] oldm[j]).0@ == id2;
            lemma_machine_unique(oldm, id2, j);
            lemma_machine_unique(self.map@, id2, j);
        }
    }

    /// Registers the device, or marks a device already registered under the
    /// identifier as connected again.
    pub fn append(&mut self, id: MachineID, machine: Machine)
        requires
            spec_machines_unique(old(self).map@),
        ensures
            spec_machines_unique(final(self).map@),
            spec_has_machine(final(self).map@, id@),
            forall|id2: Seq<char>|
                id2 != id@ ==> #[trigger] spec_has_machine(final(self).map@, id2)
                    == spec_has_machine(old(self).map@, id2),
            spec_has_machine(old(self).map@, id@) ==> {
                &&& spec_machine_of(final(self).map@, id@).status == MachineStatus::Online
                &&& spec_machine_of(final(self).map@, id@).id@ == spec_machine_of(
                    old(self).map@,
                    id@,
                ).id@
                &&& spec_machine_of(final(self).map@, id@).qrcode_url@ == spec_machine_of(
                    old(self).map@,
                    id@,
                ).qrcode_url@
            },
            !spec_has_machine(old(self).map@, id@) ==> spec_machine_of(final(self).map@, id@)
                == machine,
            forall|id2: Seq<char>|
                id2 != id@ && spec_has_machine(old(self).map@, id2) ==> #[trigger] spec_machine_of(
                    final(self).map@,
                    id2,
                ) == spec_machine_of(old(self).map@, id2),
    {
        let found = self.find(&id);
        match found {
            Some(i) => {
                let ghost oldm = self.map@;
                let mut item = self.map.remove(i);
                item.1.online();
                self.map.insert(i, item);
                proof {
                    assert(self.map@ =~= oldm.update(i as int, self.map@[i as int]));
                    self.lemma_frame(oldm, i as int, id@);
                }
            },
            None => {
                let ghost oldm = self.map@;
                let ghost idv = id@;
                self.map.push((id, machine));
                proof {
                    assert(spec_machines_unique(self.map@));
                    lemma_machine_unique(self.map@, idv, self.map@.len() - 1);
                    assert forall|id2: Seq<char>| id2 != idv implies #[trigger] spec_has_machine(
                        self.map@,
                        id2,
                    ) == spec_has_machine(oldm, id2) by {
                        if spec_has_machine(oldm, id2) {
                            let j = choose|j: int| 0 <= j < oldm.len() && (#[trigger] oldm[j]).0@
                                == id2;
                            assert(self.map@[j].0@ == id2);
                        }
                        if spec_has_machine(self.map@, id2) {
                            let j = choose|j: int|
                                0 <= j < self.map@.len() && (#[trigger] self.map@[j]).0@ == id2;
                            assert(oldm[j].0@ == id2);
                        }
                    }
                    assert forall|id2: Seq<char>|
                        id2 != idv && spec_has_machine(oldm, id2) implies #[trigger]
                        spec_machine_of(self.map@, id2) == spec_machine_of(oldm, id2) by {
                        let j = choose|j: int| 0 <= j < oldm.len() && (#[trigger] oldm[j]).0@
                            == id2;
                        lemma_machine_unique(oldm, id2, j);
                        lemma_machine_unique(self.map@, id2, j);
                    }
                }
            },
        }
    }

    /// Marks the device as disconnected; its entry is kept.
    pub fn remove(&mut self, id: &MachineID)
        requires
            spec_machines_unique(old(self).map@),
        ensures
            spec_machines_unique(final(self).map@),
            final(self).map@.len() == old(self).map@.len(),
            forall|id2: Seq<char>|
                #[trigger] spec_has_machine(final(self).map@, id2) == spec_has_machine(
                    old(self).map@,
                    id2,
                ),
            spec_has_machine(old(self).map@, id@) ==> {
                &&& spec_machine_of(final(self).map@, id@).status == MachineStatus::Offline
                &&& spec_machine_of(final(self).map@, id@).id@ == spec_machine_of(
                    old(self).map@,
                    id@,
                ).id@
                &&& spec_machine_of(final(self).map@, id@).qrcode_url@ == spec_machine_of(
                    old(self).map@,
                    id@,
                ).qrcode_url@
            },
            forall|id2: Seq<char>|
                id2 != id@ && spec_has_machine(old(self).map@, id2) ==> #[trigger] spec_machine_of(
                    final(self).map@,
                    id2,
                ) == spec_machine_of(old(self).map@, id2),
            !spec_has_machine(old(self).map@, id@) ==> final(self).map@ == old(self).map@,
    {
        let found = self.find(id);
        if let Some(i) = found {
            let ghost oldm = self.map@;
            let mut item = self.map.remove(i);
            item.1.offline();
            self.map.insert(i, item);
            proof {
                assert(self.map@ =~= oldm.update(i as int, self.map@[i as int]));
                self.lemma_frame(oldm, i as int, id@);
            }
        }
    }
}

} // verus!
