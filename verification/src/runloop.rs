use vstd::prelude::*;

verus! {

/// A model of the run-loop adapter: the queue of tasks marshalled onto the
/// process's one designated main thread, which is also the thread the
/// native framework delivers its callbacks on.
///
/// All controller state must only be touched from that thread. A caller on
/// any other thread enqueues work here instead of touching shared state;
/// the embedding layer owns the thread itself and drains the queue in
/// order. Tasks are named by caller-chosen correlation identifiers.
pub struct MainQueue {
    /// The queued tasks, oldest first.
    pub tasks: Vec<u64>,
    /// Whether the main thread is currently delivering a native callback.
    pub in_callback: bool,
}

impl MainQueue {
    /// A fresh, empty queue, outside any callback.
    pub fn new() -> (r: Self)
        ensures
            r.tasks@ == Seq::<u64>::empty(),
            !r.in_callback,
    {
        MainQueue { tasks: Vec::new(), in_callback: false }
    }

    /// Enqueue `task` to run on the main thread after everything already
    /// queued. Callable from any thread; returns immediately.
    pub fn run_on_main(&mut self, task: u64)
        ensures
            final(self).tasks@ == old(self).tasks@.push(task),
            final(self).in_callback == old(self).in_callback,
    {
        self.tasks.push(task);
    }

    /// Enqueue `task` and wait until the main thread has finished it. By
    /// then everything queued earlier has run too, so the queue drains.
    ///
    /// This must never be called from inside a callback: the main thread
    /// is also the callback-delivery thread, so waiting there for it would
    /// deadlock. It is meant for initialization only.
    pub fn run_on_main_and_wait(&mut self, task: u64)
        requires
            !old(self).in_callback,
        ensures
            final(self).tasks@ == Seq::<u64>::empty(),
            !final(self).in_callback,
    {
        let _ = task;
        self.tasks.clear();
    }

    /// The oldest queued task, taken off the queue; `None` when the queue
    /// is empty. The main thread calls this and runs what it gets, so
    /// tasks run in the order they were enqueued.
    pub fn next_task(&mut self) -> (r: Option<u64>)
        ensures
            old(self).tasks@.len() == 0 ==> r is None && final(self).tasks@ == old(self).tasks@,
            old(self).tasks@.len() > 0 ==> r == Some(old(self).tasks@[0]) && final(self).tasks@
                == old(self).tasks@.remove(0),
            final(self).in_callback == old(self).in_callback,
    {
        if self.tasks.len() == 0 {
            None
        } else {
            let task = self.tasks.remove(0);
            Some(task)
        }
    }

    /// Note that the main thread starts delivering one native callback.
    /// Callbacks are serialized on that thread, so none can already be in
    /// delivery.
    pub fn enter_callback(&mut self)
        requires
            !old(self).in_callback,
        ensures
            final(self).in_callback,
            final(self).tasks@ == old(self).tasks@,
    {
        self.in_callback = true;
    }

    /// Note that the main thread finished delivering the callback.
    pub fn exit_callback(&mut self)
        requires
            old(self).in_callback,
        ensures
            !final(self).in_callback,
            final(self).tasks@ == old(self).tasks@,
    {
        self.in_callback = false;
    }
}

} // verus!
