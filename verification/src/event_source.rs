//! A notification source with two views of one watch handle.
//!
//! The source owns one handle and the scratch buffer that events are decoded
//! into. It presents them either as the handle itself, on which watches are
//! added and removed, or as a sequence of events that has taken the buffer in.
//! Asking for a view switches to it if the other one is active; the switch
//! itself is given by the caller, since only the caller knows the handle.

use vstd::prelude::*;

verus! {

/// What a source holds: the handle with the buffer at rest, or the sequence
/// that was made of both.
pub enum EventSourceInner<H, S, B> {
    Inotify(H, B),
    EventStream(S),
}

/// One watch handle, held in exactly one of its two views.
pub struct EventSource<H, S, B> {
    source: Option<EventSourceInner<H, S, B>>,
}

impl<H, S, B> EventSource<H, S, B> {
    /// What the source holds; `None` once a switch to the sequence view has
    /// failed and the handle is gone.
    pub closed spec fn inner(&self) -> Option<EventSourceInner<H, S, B>> {
        self.source
    }

    /// The source still holds its handle, in one view or the other.
    pub open spec fn is_live(&self) -> bool {
        self.inner() is Some
    }

    /// A source in the handle view.
    pub fn new(source: H, buf: B) -> (r: Self)
        ensures
            r.inner() == Some(EventSourceInner::<H, S, B>::Inotify(source, buf)),
    {
        EventSource { source: Some(EventSourceInner::Inotify(source, buf)) }
    }

    /// Whether the source still holds its handle.
    pub fn live(&self) -> (r: bool)
        ensures
            r == self.is_live(),
    {
        self.source.is_some()
    }

    /// Whether the sequence view is the active one.
    pub fn is_event_stream(&self) -> (r: bool)
        ensures
            r == (self.inner() matches Some(EventSourceInner::EventStream(_))),
    {
        match &self.source {
            Some(EventSourceInner::EventStream(_)) => true,
            _ => false,
        }
    }

    /// The handle view. If the sequence view is active, `revert` turns the
    /// sequence back into the handle and the buffer; if the handle view is
    /// active already, `revert` is not called and nothing changes.
    pub fn as_inotify<F: FnOnce(S) -> (H, B)>(&mut self, revert: F) -> (r: &mut H)
        requires
            old(self).is_live(),
            old(self).inner() matches Some(EventSourceInner::EventStream(s)) ==> revert.requires(
                (s,),
            ),
        ensures
            match old(self).inner() {
                Some(EventSourceInner::Inotify(h, b)) => {
                    &&& *r == h
                    &&& final(self).inner() == Some(
                        EventSourceInner::<H, S, B>::Inotify(*final(r), b),
                    )
                },
                Some(EventSourceInner::EventStream(s)) => {
                    exists|b: B|
                        {
                            &&& revert.ensures((s,), (*r, b))
                            &&& final(self).inner() == Some(
                                EventSourceInner::<H, S, B>::Inotify(*final(r), b),
                            )
                        }
                },
                None => false,
            },
    {
        let held = self.source.take();
        match held {
            Some(EventSourceInner::EventStream(s)) => {
                let (h, b) = revert(s);
                self.source = Some(EventSourceInner::Inotify(h, b));
            },
            other => {
                self.source = other;
            },
        }
        match &mut self.source {
            Some(EventSourceInner::Inotify(h, _)) => h,
            _ => vstd::pervasive::unreached(),
        }
    }

    /// The sequence view. If the handle view is active, `convert` makes a
    /// sequence of the handle and the buffer; where that fails, the handle is
    /// gone and the error is handed on. If the sequence view is active
    /// already, `convert` is not called and nothing changes.
    pub fn as_event_stream<E, F: FnOnce(H, B) -> Result<S, E>>(&mut self, convert: F) -> (r:
        Result<&mut S, E>)
        requires
            old(self).is_live(),
            old(self).inner() matches Some(EventSourceInner::Inotify(h, b)) ==> convert.requires(
                (h, b),
            ),
        ensures
            match old(self).inner() {
                Some(EventSourceInner::EventStream(s)) => {
                    &&& r matches Ok(stream)
                    &&& *stream == s
                    &&& final(self).inner() == Some(
                        EventSourceInner::<H, S, B>::EventStream(*final(stream)),
                    )
                },
                Some(EventSourceInner::Inotify(h, b)) => match r {
                    Ok(stream) => {
                        &&& convert.ensures((h, b), Ok(*stream))
                        &&& final(self).inner() == Some(
                            EventSourceInner::<H, S, B>::EventStream(*final(stream)),
                        )
                    },
                    Err(e) => {
                        &&& convert.ensures((h, b), Err(e))
                        &&& final(self).inner() is None
                    },
                },
                None => false,
            },
    {
        let held = self.source.take();
        match held {
            Some(EventSourceInner::Inotify(h, b)) => {
                match convert(h, b) {
                    Ok(s) => {
                        self.source = Some(EventSourceInner::EventStream(s));
                    },
                    Err(e) => {
                        return Err(e);
                    },
                }
            },
            other => {
                self.source = other;
            },
        }
        match &mut self.source {
            Some(EventSourceInner::EventStream(s)) => Ok(s),
            _ => vstd::pervasive::unreached(),
        }
    }
}

} // verus!
