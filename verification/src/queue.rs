//! A first-in first-out queue, and a stack built from two such queues.

use vstd::prelude::*;

verus! {

/// A queue: elements leave in the order in which they came.
#[derive(Debug)]
pub struct Queue<T> {
    elements: Vec<T>,
}

impl<T> View for Queue<T> {
    type V = Seq<T>;

    /// The elements from the oldest to the newest.
    closed spec fn view(&self) -> Seq<T> {
        self.elements@
    }
}

impl<T> Queue<T> {
    /// An empty queue.
    pub fn new() -> (q: Queue<T>)
        ensures
            q@ == Seq::<T>::empty(),
    {
        Queue { elements: Vec::new() }
    }

    /// Adds `value` behind the newest element.
    pub fn enqueue(&mut self, value: T)
        ensures
            final(self)@ == old(self)@.push(value),
    {
        self.elements.push(value)
    }

    /// Takes the oldest element out, or reports that there is none.
    pub fn dequeue(&mut self) -> (r: Result<T, &str>)
        ensures
            old(self)@.len() > 0 ==> r == Ok::<T, &str>(old(self)@[0]) && final(self)@ == old(
                self,
            )@.drop_first(),
            old(self)@.len() == 0 ==> final(self)@ == old(self)@ && (r matches Err(e) && e@
                == "Queue is empty"@),
    {
        if !self.elements.is_empty() {
            let first = self.elements.remove(0usize);
            assert(self.elements@ =~= old(self).elements@.drop_first());
            Ok(first)
        } else {
            Err("Queue is empty")
        }
    }

    /// The oldest element, which stays in the queue, or a report that there
    /// is none.
    pub fn peek(&self) -> (r: Result<&T, &str>)
        ensures
            self@.len() > 0 ==> r == Ok::<&T, &str>(&self@[0]),
            self@.len() == 0 ==> (r matches Err(e) && e@ == "Queue is empty"@),
    {
        if self.elements.len() > 0 {
            Ok(&self.elements[0])
        } else {
            Err("Queue is empty")
        }
    }

    /// How many elements the queue holds.
    pub fn size(&self) -> (n: usize)
        ensures
            n == self@.len(),
    {
        self.elements.len()
    }

    /// Whether the queue holds no element.
    pub fn is_empty(&self) -> (b: bool)
        ensures
            b == (self@.len() == 0),
    {
        self.elements.is_empty()
    }
}

impl<T> Default for Queue<T> {
    fn default() -> (q: Queue<T>)
        ensures
            q@ == Seq::<T>::empty(),
    {
        Queue { elements: Vec::new() }
    }
}

/// A stack kept in two queues: the element that came last leaves first.
pub struct MyStack<T> {
    q1: Queue<T>,
    q2: Queue<T>,
}

impl<T> View for MyStack<T> {
    type V = Seq<T>;

    /// The elements from the top of the stack to its bottom.
    closed spec fn view(&self) -> Seq<T> {
        self.q1@
    }
}

impl<T> MyStack<T> {
    /// The stack is at rest: the second queue, which only serves while an
    /// element is pushed, is empty.
    pub closed spec fn wf(&self) -> bool {
        self.q2@.len() == 0
    }

    /// An empty stack.
    pub fn new() -> (s: Self)
        ensures
            s.wf(),
            s@ == Seq::<T>::empty(),
    {
        Self { q1: Queue::<T>::new(), q2: Queue::<T>::new() }
    }

    /// Puts `elem` on top of the stack.
    ///
    /// The element goes into the second queue, the first queue is emptied
    /// into the second behind it, and the second is emptied back into the
    /// first, which then starts with the new element.
    pub fn push(&mut self, elem: T)
        requires
            old(self).wf(),
        ensures
            final(self).wf(),
            final(self)@ == seq![elem] + old(self)@,
    {
        if self.q1.is_empty() {
            self.q1.enqueue(elem);
            assert(self.q1@ =~= seq![elem] + old(self).q1@);
        } else {
            self.q2.enqueue(elem);
            let ghost below = self.q1@;
            let count: usize = self.q1.size();
            let mut moved: usize = 0;
            while moved < count
                invariant
                    moved <= count,
                    count == below.len(),
                    self.q1@ == below.skip(moved as int),
                    self.q2@ == seq![elem] + below.take(moved as int),
                decreases count - moved,
            {
                let front = self.q1.dequeue().unwrap();
                self.q2.enqueue(front);
                moved = moved + 1;
                assert(self.q1@ =~= below.skip(moved as int));
                assert(self.q2@ =~= seq![elem] + below.take(moved as int));
            }
            let ghost whole = self.q2@;
            assert(whole =~= seq![elem] + below);
            let total: usize = self.q2.size();
            let mut moved: usize = 0;
            while moved < total
                invariant
                    moved <= total,
                    total == whole.len(),
                    self.q2@ == whole.skip(moved as int),
                    self.q1@ == whole.take(moved as int),
                decreases total - moved,
            {
                let front = self.q2.dequeue().unwrap();
                self.q1.enqueue(front);
                moved = moved + 1;
                assert(self.q2@ =~= whole.skip(moved as int));
                assert(self.q1@ =~= whole.take(moved as int));
            }
            assert(self.q1@ =~= whole);
        }
    }

    /// Takes the top element off the stack, or reports that there is none.
    pub fn pop(&mut self) -> (r: Result<T, &str>)
        requires
            old(self).wf(),
        ensures
            final(self).wf(),
            old(self)@.len() > 0 ==> r == Ok::<T, &str>(old(self)@[0]) && final(self)@ == old(
                self,
            )@.drop_first(),
            old(self)@.len() == 0 ==> final(self)@ == old(self)@ && (r matches Err(e) && e@
                == "Stack is empty"@),
    {
        if !self.q1.is_empty() {
            match self.q1.dequeue() {
                Ok(top) => Ok(top),
                Err(_) => Err("Queue is empty"),
            }
        } else {
            Err("Stack is empty")
        }
    }

    /// Whether the stack holds no element.
    pub fn is_empty(&self) -> (b: bool)
        requires
            self.wf(),
        ensures
            b == (self@.len() == 0),
    {
        self.q1.is_empty() && self.q2.is_empty()
    }
}

} // verus!
