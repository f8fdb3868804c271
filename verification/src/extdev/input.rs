//! Host input queues: touch-panel samples and key events recorded by the
//! windowing front end and consumed by the touch controller model.
use vstd::prelude::*;

use std::collections::VecDeque;

verus! {

/// The two physical keys of the device.
#[derive(Debug, Clone, Copy, PartialEq, Eq, Structural)]
pub enum KeyType {
    Home,
    Power,
}

/// A key transition event.
#[derive(Debug, Clone, Copy, PartialEq, Eq, Structural)]
pub enum KeyPress {
    Press(KeyType),
    Release(KeyType),
}

/// Queues of pending input events. A touch entry of `None` records the pen
/// leaving the panel.
pub struct Input {
    pub touch: VecDeque<Option<(usize, usize)>>,
    pub keys: VecDeque<KeyPress>,
}

impl Default for Input {
    /// Empty queues.
    fn default() -> (r: Self)
        ensures
            r.touch@.len() == 0,
            r.keys@.len() == 0,
    {
        Input { touch: VecDeque::new(), keys: VecDeque::new() }
    }
}

impl Input {
    /// Record a touch sample, deduplicating: the sample is queued only when
    /// the queue is empty, the last entry is a release, or the last entry is
    /// a different position.
    pub fn touch_move(&mut self, xy: (usize, usize))
        ensures
            final(self).keys == old(self).keys,
            ({
                let t = old(self).touch@;
                if t.len() == 0 || t.last() is None || t.last() != Some(xy) {
                    final(self).touch@ == t.push(Some(xy))
                } else {
                    final(self).touch@ == t
                }
            }),
    {
        if self.touch.len() > 0 {
            let last = self.touch[self.touch.len() - 1];
            match last {
                None => self.touch.push_back(Some(xy)),
                Some(prev) => {
                    if prev.0 != xy.0 || prev.1 != xy.1 {
                        self.touch.push_back(Some(xy));
                    }
                },
            }
        } else {
            self.touch.push_back(Some(xy));
        }
    }

    /// Record the pen leaving the panel.
    pub fn touch_release(&mut self)
        ensures
            final(self).keys == old(self).keys,
            final(self).touch@ == old(self).touch@.push(None::<(usize, usize)>),
    {
        self.touch.push_back(None);
    }

    /// Take the oldest pending touch sample, if any.
    pub fn check_touch(&mut self) -> (r: Option<Option<(usize, usize)>>)
        ensures
            final(self).keys == old(self).keys,
            old(self).touch@.len() == 0 ==> r is None && final(self).touch@ == old(self).touch@,
            old(self).touch@.len() > 0 ==> r == Some(old(self).touch@[0]) && final(self).touch@
                == old(self).touch@.subrange(1, old(self).touch@.len() as int),
    {
        self.touch.pop_front()
    }

    /// Record a key press.
    pub fn key_press(&mut self, key: KeyType)
        ensures
            final(self).touch == old(self).touch,
            final(self).keys@ == old(self).keys@.push(KeyPress::Press(key)),
    {
        self.keys.push_back(KeyPress::Press(key));
    }

    /// Record a key release.
    pub fn key_release(&mut self, key: KeyType)
        ensures
            final(self).touch == old(self).touch,
            final(self).keys@ == old(self).keys@.push(KeyPress::Release(key)),
    {
        self.keys.push_back(KeyPress::Release(key));
    }

    /// Take the oldest pending key event, if any.
    pub fn check_key(&mut self) -> (r: Option<KeyPress>)
        ensures
            final(self).touch == old(self).touch,
            old(self).keys@.len() == 0 ==> r is None && final(self).keys@ == old(self).keys@,
            old(self).keys@.len() > 0 ==> r == Some(old(self).keys@[0]) && final(self).keys@ == old(
                self,
            ).keys@.subrange(1, old(self).keys@.len() as int),
    {
        self.keys.pop_front()
    }
}

} // verus!
