use vstd::prelude::*;

verus! {

/// A first-in first-out queue of at most `SIZE` values, kept in a ring.
#[derive(Debug, Clone, Copy)]
pub struct Fifo<T: Copy, const SIZE: usize> {
    data: [Option<T>; SIZE],
    start: usize,
    size: usize,
}

impl<T: Copy, const SIZE: usize> Fifo<T, SIZE> {
    /// The values, the next one to pop first.
    pub closed spec fn view(&self) -> Seq<T> {
        Seq::new(self.size as nat, |i: int| self.data@[(self.start + i) % (SIZE as int)]->0)
    }

    /// The ring is consistent: every queued slot holds a value.
    pub closed spec fn wf(&self) -> bool {
        &&& self.size <= SIZE
        &&& (SIZE > 0 ==> self.start < SIZE)
        &&& (SIZE == 0 ==> self.start == 0)
        &&& forall|i: int| 0 <= i < self.size ==> (#[trigger] self.data@[(self.start + i) % (SIZE as int)]) is Some
    }

    /// An empty queue.
    pub fn new() -> (r: Self)
        ensures
            r.wf(),
            r@ == Seq::<T>::empty(),
    {
        let r = Self { data: vstd::array::array_fill_for_copy_types(None), start: 0, size: 0 };
        assert(r@ =~= Seq::<T>::empty());
        r
    }

    /// A consistent queue holds at most `SIZE` values.
    pub proof fn lemma_len(&self)
        requires
            self.wf(),
        ensures
            self@.len() <= SIZE,
    {
    }

    /// The number of values queued.
    pub fn len(&self) -> (r: usize)
        requires
            self.wf(),
        ensures
            r == self@.len(),
    {
        self.size
    }

    /// Where the value `i` places after the first one sits.
    fn slot(&self, i: usize) -> (r: usize)
        requires
            self.wf(),
            i <= SIZE,
            SIZE > 0,
        ensures
            r < SIZE,
            r == (self.start + i) % (SIZE as int),
    {
        let room: usize = SIZE - self.start;
        let st = self.start;
        if i >= room {
            assert((st + i) % (SIZE as int) == i - room) by (nonlinear_arith)
                requires st < SIZE, i <= SIZE, room == SIZE - st, i >= room;
            i - room
        } else {
            assert((st + i) % (SIZE as int) == st + i) by (nonlinear_arith)
                requires st < SIZE, room == SIZE - st, i < room;
            st + i
        }
    }

    /// Queues `data` at the back.
    pub fn push(&mut self, data: T)
        requires
            old(self).wf(),
            old(self)@.len() < SIZE,
        ensures
            final(self).wf(),
            final(self)@ == old(self)@.push(data),
    {
        let ghost n = self.size as int;
        let ghost st = self.start as int;
        let idx: usize = self.slot(self.size);
        self.data[idx] = Some(data);
        self.size = self.size + 1;
        assert forall|i: int| 0 <= i < self.size implies (#[trigger] self.data@[(self.start + i) % (SIZE as int)]) is Some by {
            if i < n {
                assert((st + i) % (SIZE as int) != idx) by (nonlinear_arith)
                    requires 0 <= i < n, n < SIZE, idx == (st + n) % (SIZE as int), 0 <= st < SIZE, SIZE > 0;
            }
        }
        assert forall|i: int| 0 <= i < n implies #[trigger] self@[i] == old(self)@[i] by {
            assert((st + i) % (SIZE as int) != idx) by (nonlinear_arith)
                requires 0 <= i < n, n < SIZE, idx == (st + n) % (SIZE as int), 0 <= st < SIZE, SIZE > 0;
        }
        assert(self@ =~= old(self)@.push(data));
    }

    /// Takes the value at the front.
    pub fn pop(&mut self) -> (r: T)
        requires
            old(self).wf(),
            old(self)@.len() > 0,
        ensures
            final(self).wf(),
            r == old(self)@[0],
            final(self)@ == old(self)@.drop_first(),
    {
        let start: usize = self.start;
        let ghost n = self.size as int;
        assert((start + 0) % (SIZE as int) == start) by (nonlinear_arith) requires start < SIZE;
        let value = self.data[start].unwrap();
        self.data[start] = None;
        self.start = if start + 1 == SIZE { 0 } else { start + 1 };
        self.size = self.size - 1;
        let ghost st2 = self.start as int;
        assert forall|i: int| 0 <= i < self.size implies
            (#[trigger] self.data@[(self.start + i) % (SIZE as int)]) == old(self).data@[(start + (i + 1)) % (SIZE as int)]
            && (self.start + i) % (SIZE as int) != start by {
            assert((st2 + i) % (SIZE as int) == (start + (i + 1)) % (SIZE as int)
                && (start + (i + 1)) % (SIZE as int) != start) by (nonlinear_arith)
                requires 0 <= i < n - 1, n <= SIZE, start < SIZE, SIZE > 0,
                    st2 == (if start + 1 == SIZE { 0 } else { start + 1 });
        }
        assert forall|i: int| 0 <= i < self.size implies (#[trigger] self.data@[(self.start + i) % (SIZE as int)]) is Some by {
            assert(old(self).data@[(start + (i + 1)) % (SIZE as int)] is Some);
        }
        assert(self@ =~= old(self)@.drop_first()) by {
            assert forall|i: int| 0 <= i < self.size implies #[trigger] self@[i] == old(self)@.drop_first()[i] by {
                assert(old(self).data@[(start + (i + 1)) % (SIZE as int)] is Some);
            }
        }
        value
    }

    /// The value `index` places after the front.
    pub fn get(&self, index: usize) -> (r: T)
        requires
            self.wf(),
            index < self@.len(),
        ensures
            r == self@[index as int],
    {
        let idx: usize = self.slot(index);
        self.data[idx].unwrap()
    }

    /// Replaces the value `index` places after the front.
    pub fn set(&mut self, index: usize, value: T)
        requires
            old(self).wf(),
            index < old(self)@.len(),
        ensures
            final(self).wf(),
            final(self)@ == old(self)@.update(index as int, value),
    {
        let idx: usize = self.slot(index);
        self.data[idx] = Some(value);
        assert forall|i: int| 0 <= i < self.size && i != index implies
            (#[trigger] self.data@[(self.start + i) % (SIZE as int)]) == old(self).data@[(self.start + i) % (SIZE as int)] by {
            let st = self.start as int;
            let n = self.size as int;
            assert((st + i) % (SIZE as int) != (st + index) % (SIZE as int)) by (nonlinear_arith)
                requires 0 <= i < n, i != index, index < n, n <= SIZE, 0 <= st < SIZE, SIZE > 0;
        }
        assert(self@ =~= old(self)@.update(index as int, value));
    }

    /// Empties the queue.
    pub fn clear(&mut self)
        requires
            old(self).wf(),
        ensures
            final(self).wf(),
            final(self)@ == Seq::<T>::empty(),
    {
        while self.size > 0
            invariant
                self.wf(),
            decreases self.size,
        {
            let ghost before = self.size;
            self.pop();
            assert(self@.len() == before - 1);
        }
        assert(self@ =~= Seq::<T>::empty());
    }
}

/// Values come out of the queue in the order they went in: pushing onto a queue and then
/// popping gives the front of the queue, or the pushed value when it was empty.
pub proof fn lemma_fifo_order<T>(queue: Seq<T>, value: T)
    ensures
        queue.len() > 0 ==> queue.push(value)[0] == queue[0],
        queue.len() == 0 ==> queue.push(value)[0] == value,
        queue.push(value).drop_first() == (if queue.len() > 0 { queue.drop_first().push(value) } else { Seq::<T>::empty() }),
{
    if queue.len() > 0 {
        assert(queue.push(value).drop_first() =~= queue.drop_first().push(value));
    } else {
        assert(queue.push(value).drop_first() =~= Seq::<T>::empty());
    }
}

} // verus!
