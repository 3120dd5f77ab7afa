use vstd::prelude::*;

verus! {

/// Number of sockets a module of this family can hold at once.
pub const DEVICE_SOCKET_LIMIT: usize = 6;

/// Why a registry operation was refused.
#[derive(Clone, Copy, Debug, PartialEq, Eq, Structural)]
pub enum SocketError {
    /// Every slot is occupied.
    Full,
    /// The handle is out of range or names a free slot.
    NotFound,
}

/// Number of occupied slots in `slots`.
pub open spec fn count_occupied<S>(slots: Seq<Option<S>>) -> nat
    decreases slots.len(),
{
    if slots.len() == 0 {
        0
    } else {
        count_occupied(slots.drop_last()) + if slots.last() is Some { 1nat } else { 0nat }
    }
}

/// The first `i` slots are all occupied.
pub open spec fn occupied_below<S>(slots: Seq<Option<S>>, i: int) -> bool {
    forall|j: int| 0 <= j < i ==> #[trigger] slots[j] is Some
}

/// A fixed table of `N` socket slots, addressed by handles `0..N`. A slot is
/// free (`None`) or holds the state of one socket.
pub struct SocketSet<S, const N: usize> {
    pub slots: Vec<Option<S>>,
}

impl<S, const N: usize> SocketSet<S, N> {
    pub open spec fn view(&self) -> Seq<Option<S>> {
        self.slots@
    }

    pub open spec fn wf(&self) -> bool {
        self.slots@.len() == N
    }

    /// A registry with every slot free.
    pub fn new() -> (r: Self)
        ensures
            r.wf(),
            forall|i: int| 0 <= i < N ==> #[trigger] r@[i] is None,
    {
        let mut slots: Vec<Option<S>> = Vec::new();
        let mut i: usize = 0;
        while i < N
            invariant
                i <= N,
                slots@.len() == i,
                forall|j: int| 0 <= j < i ==> #[trigger] slots@[j] is None,
            decreases N - i,
        {
            slots.push(None);
            i = i + 1;
        }
        SocketSet { slots }
    }

    pub fn capacity(&self) -> (r: usize)
        requires
            self.wf(),
        ensures
            r == N,
    {
        self.slots.len()
    }

    /// Puts `state` into the lowest free slot and returns its handle. On a
    /// full registry nothing changes.
    pub fn allocate(&mut self, state: S) -> (r: Result<usize, SocketError>)
        requires
            old(self).wf(),
        ensures
            final(self).wf(),
            match r {
                Ok(id) => {
                    &&& id < N
                    &&& old(self)@[id as int] is None
                    &&& occupied_below(old(self)@, id as int)
                    &&& final(self)@ == old(self)@.update(id as int, Some(state))
                },
                Err(e) => {
                    &&& e == SocketError::Full
                    &&& occupied_below(old(self)@, N as int)
                    &&& final(self)@ == old(self)@
                },
            },
    {
        let mut i: usize = 0;
        while i < self.slots.len()
            invariant
                self.wf(),
                i <= N,
                self@ == old(self)@,
                occupied_below(self@, i as int),
            decreases N - i,
        {
            if self.slots[i].is_none() {
                self.slots.set(i, Some(state));
                return Ok(i);
            }
            i = i + 1;
        }
        Err(SocketError::Full)
    }

    /// Frees an occupied slot and hands back what it held.
    pub fn release(&mut self, id: usize) -> (r: Result<S, SocketError>)
        requires
            old(self).wf(),
        ensures
            final(self).wf(),
            id < N && old(self)@[id as int] is Some ==> {
                &&& r == Ok::<S, SocketError>(old(self)@[id as int]->Some_0)
                &&& final(self)@ == old(self)@.update(id as int, None)
            },
            !(id < N && old(self)@[id as int] is Some) ==> {
                &&& r == Err::<S, SocketError>(SocketError::NotFound)
                &&& final(self)@ == old(self)@
            },
    {
        if id < self.slots.len() && self.slots[id].is_some() {
            let mut taken: Option<S> = None;
            std::mem::swap(&mut taken, &mut self.slots[id]);
            match taken {
                Some(s) => Ok(s),
                None => Err(SocketError::NotFound),
            }
        } else {
            Err(SocketError::NotFound)
        }
    }

    /// The state held in an occupied slot.
    pub fn get(&self, id: usize) -> (r: Result<&S, SocketError>)
        requires
            self.wf(),
        ensures
            id < N && self@[id as int] is Some ==> r == Ok::<&S, SocketError>(
                &self@[id as int]->Some_0,
            ),
            !(id < N && self@[id as int] is Some) ==> r == Err::<&S, SocketError>(
                SocketError::NotFound,
            ),
    {
        if id < self.slots.len() {
            match &self.slots[id] {
                Some(s) => Ok(s),
                None => Err(SocketError::NotFound),
            }
        } else {
            Err(SocketError::NotFound)
        }
    }

    /// Replaces the state held in an occupied slot.
    pub fn update(&mut self, id: usize, state: S) -> (r: Result<(), SocketError>)
        requires
            old(self).wf(),
        ensures
            final(self).wf(),
            id < N && old(self)@[id as int] is Some ==> {
                &&& r == Ok::<(), SocketError>(())
                &&& final(self)@ == old(self)@.update(id as int, Some(state))
            },
            !(id < N && old(self)@[id as int] is Some) ==> {
                &&& r == Err::<(), SocketError>(SocketError::NotFound)
                &&& final(self)@ == old(self)@
            },
    {
        if id < self.slots.len() && self.slots[id].is_some() {
            self.slots.set(id, Some(state));
            Ok(())
        } else {
            Err(SocketError::NotFound)
        }
    }

    /// Number of occupied slots.
    pub fn len(&self) -> (r: usize)
        requires
            self.wf(),
        ensures
            r == count_occupied(self@),
    {
        let mut n: usize = 0;
        let mut i: usize = 0;
        while i < self.slots.len()
            invariant
                self.wf(),
                i <= N,
                n == count_occupied(self@.take(i as int)),
                n <= i,
            decreases N - i,
        {
            assert(self@.take(i as int + 1).drop_last() =~= self@.take(i as int));
            if self.slots[i].is_some() {
                n = n + 1;
            }
            i = i + 1;
        }
        assert(self@.take(N as int) =~= self@);
        n
    }
}

/// A table of `n` slots never holds more than `n` occupied ones.
pub proof fn lemma_count_occupied_bounded<S>(slots: Seq<Option<S>>)
    ensures
        count_occupied(slots) <= slots.len(),
    decreases slots.len(),
{
    if slots.len() > 0 {
        lemma_count_occupied_bounded(slots.drop_last());
    }
}

/// The registry never holds more than `N` occupied slots, and `allocate` on
/// a full registry leaves it as it was.
pub proof fn lemma_registry_capacity<S, const N: usize>(set: SocketSet<S, N>)
    requires
        set.wf(),
    ensures
        count_occupied(set@) <= N,
        occupied_below(set@, N as int) ==> count_occupied(set@) == N,
{
    lemma_count_occupied_bounded(set@);
    if occupied_below(set@, N as int) {
        lemma_count_full(set@);
    }
}

proof fn lemma_count_full<S>(slots: Seq<Option<S>>)
    requires
        occupied_below(slots, slots.len() as int),
    ensures
        count_occupied(slots) == slots.len(),
    decreases slots.len(),
{
    if slots.len() > 0 {
        assert(slots[slots.len() - 1] is Some);
        assert forall|j: int| 0 <= j < slots.len() - 1 implies #[trigger] slots.drop_last()[j] is Some by {
            assert(slots[j] is Some);
        }
        lemma_count_full(slots.drop_last());
    }
}

} // verus!
