//! The tasks that listen to the ongoing verification flow.

use vstd::prelude::*;

verus! {

/// The handles of the tasks that listen to the ongoing flow: one listens to the request, one to
/// the concrete verification that the request turned into.
///
/// A handle is put in when its task has been spawned. A method that takes a handle out returns
/// it, and the caller aborts its task. To abort a task that has ended has no effect, so the
/// handle of a listener that stopped by itself may stay where it is.
pub struct ListenerTasks<H> {
    request: Option<H>,
    concrete: Option<H>,
}

/// The handles that a [`ListenerTasks`] holds.
pub struct ListenerTasksView<H> {
    pub request: Option<H>,
    pub concrete: Option<H>,
}

impl<H> View for ListenerTasks<H> {
    type V = ListenerTasksView<H>;

    closed spec fn view(&self) -> ListenerTasksView<H> {
        ListenerTasksView { request: self.request, concrete: self.concrete }
    }
}

/// The handles in a slot: one or none.
pub open spec fn slot<H>(handle: Option<H>) -> Seq<H> {
    match handle {
        Some(handle) => seq![handle],
        None => seq![],
    }
}

impl<H> ListenerTasksView<H> {
    /// No task listens.
    pub open spec fn empty() -> ListenerTasksView<H> {
        ListenerTasksView { request: None, concrete: None }
    }

    /// All handles, that of the request listener first.
    pub open spec fn handles(self) -> Seq<H> {
        slot(self.request) + slot(self.concrete)
    }

    /// Whether some task listens under this handle.
    pub open spec fn holds(self, handle: H) -> bool {
        self.request == Some(handle) || self.concrete == Some(handle)
    }
}

impl<H> Default for ListenerTasks<H> {
    fn default() -> (tasks: ListenerTasks<H>)
        ensures
            tasks@ == ListenerTasksView::<H>::empty(),
    {
        ListenerTasks { request: None, concrete: None }
    }
}

impl<H> ListenerTasks<H> {
    /// Puts in the handle of a new request listener and returns that of the previous one, whose
    /// task is to be aborted.
    #[must_use]
    pub fn replace_request_listener(&mut self, handle: H) -> (aborted: Option<H>)
        ensures
            aborted == old(self)@.request,
            final(self)@ == (ListenerTasksView { request: Some(handle), ..old(self)@ }),
    {
        let previous = self.request.take();
        self.request = Some(handle);
        previous
    }

    /// Puts in the handle of a new concrete listener and, where `abort_request` says so, takes
    /// out that of the request listener. Returns the handles whose tasks are to be aborted, in
    /// this order: that of the previous concrete listener, that of the request listener.
    #[must_use]
    pub fn replace_concrete_listener(&mut self, handle: H, abort_request: bool) -> (aborted: Vec<H>)
        ensures
            aborted@ == slot(old(self)@.concrete) + (if abort_request {
                slot(old(self)@.request)
            } else {
                seq![]
            }),
            final(self)@ == (ListenerTasksView {
                request: if abort_request {
                    None
                } else {
                    old(self)@.request
                },
                concrete: Some(handle),
            }),
    {
        let mut aborted: Vec<H> = Vec::new();
        if let Some(previous) = self.concrete.take() {
            aborted.push(previous);
        }
        self.concrete = Some(handle);
        if abort_request {
            if let Some(request) = self.abort_request_listener() {
                aborted.push(request);
            }
        }
        aborted
    }

    /// Takes out the handle of the request listener, whose task is to be aborted.
    #[must_use]
    pub fn abort_request_listener(&mut self) -> (aborted: Option<H>)
        ensures
            aborted == old(self)@.request,
            final(self)@ == (ListenerTasksView { request: None, ..old(self)@ }),
    {
        self.request.take()
    }

    /// Takes out the handle of the concrete listener, whose task is to be aborted.
    #[must_use]
    pub fn abort_concrete_listener(&mut self) -> (aborted: Option<H>)
        ensures
            aborted == old(self)@.concrete,
            final(self)@ == (ListenerTasksView { concrete: None, ..old(self)@ }),
    {
        self.concrete.take()
    }

    /// Takes out all handles, that of the request listener first. Their tasks are to be aborted.
    #[must_use]
    pub fn abort_all(&mut self) -> (aborted: Vec<H>)
        ensures
            aborted@ == old(self)@.handles(),
            final(self)@ == ListenerTasksView::<H>::empty(),
    {
        let mut aborted: Vec<H> = Vec::new();
        if let Some(request) = self.abort_request_listener() {
            aborted.push(request);
        }
        if let Some(concrete) = self.abort_concrete_listener() {
            aborted.push(concrete);
        }
        aborted
    }
}

} // verus!
