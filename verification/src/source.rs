use vstd::prelude::*;

verus! {

/// A raw input event as read from a source: a key press carrying its
/// character, or a mouse or resize event.
#[derive(Copy, Clone, PartialEq, Eq, Structural, Debug)]
pub enum InputEvent {
    Key(char),
    Mouse,
    Resize,
}

/// Failure to read from an input source.
#[derive(Copy, Clone, PartialEq, Eq, Structural, Debug)]
pub enum SourceError {
    /// A replay source was read while its queue was empty.
    ExhaustedSource,
}

/// A deterministic replay source backed by a finite queue of pre-recorded
/// events. It never blocks: it has an event exactly while the queue is not
/// empty, and reading from it when empty fails with `ExhaustedSource`.
pub struct FakeSource {
    pub events: Vec<InputEvent>,
}

impl FakeSource {
    pub fn new(events: Vec<InputEvent>) -> (r: FakeSource)
        ensures
            r.events@ == events@,
    {
        FakeSource { events }
    }

    /// True if the source has an event to be read. The timeout is ignored: a
    /// replay source never waits.
    pub fn has_event(&self, _timeout_ms: u64) -> (r: bool)
        ensures
            r == (self.events@.len() > 0),
    {
        self.events.len() > 0
    }

    /// Reads the next event: the front of the queue, or `ExhaustedSource`
    /// when the queue is empty.
    pub fn read(&mut self) -> (r: Result<InputEvent, SourceError>)
        ensures
            old(self).events@.len() > 0 ==> r == Ok::<InputEvent, SourceError>(
                old(self).events@[0],
            ) && final(self).events@ == old(self).events@.subrange(
                1,
                old(self).events@.len() as int,
            ),
            old(self).events@.len() == 0 ==> r == Err::<InputEvent, SourceError>(
                SourceError::ExhaustedSource,
            ) && final(self).events@ == old(self).events@,
    {
        if self.events.len() > 0 {
            let ev = self.events.remove(0);
            proof {
                assert(self.events@ =~= old(self).events@.subrange(
                    1,
                    old(self).events@.len() as int,
                ));
            }
            Ok(ev)
        } else {
            Err(SourceError::ExhaustedSource)
        }
    }
}

} // verus!
