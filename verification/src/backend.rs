//! The digital input capability: the one operation every GPIO backend must
//! provide ("read the current logical level of one pin, fallibly"), the
//! opening interface a backend exposes to the registry, and an in-memory
//! scripted backend used as a test double.
//!
//! Every backend reports the *logical* asserted state: `true` exactly when
//! the key is physically pressed. The keypad wiring is active-low, so a
//! backend reading raw electrical levels must apply that polarity inversion
//! itself before returning.

use vstd::prelude::*;
use crate::errors::IoError;
use crate::errors::OpenError;

verus! {

/// One open pin: the capability to read its current logical level.
pub trait DigitalInput: Sized {
    /// Whether the next read is sure to succeed. A backend that cannot
    /// promise anything (real hardware) answers `false` everywhere.
    spec fn sure_read(&self) -> bool;

    /// What one read does: how it relates the pin resource before (`pre`)
    /// and after (`post`) and which result `r` it returns. Each backend
    /// defines this as precisely as its mechanism allows; a hardware
    /// backend can only say that the resource itself is unchanged.
    spec fn read_rel(pre: Self, post: Self, r: Result<bool, IoError>) -> bool;

    /// Read the pin's current logical level: `true` iff the key is pressed.
    fn read_level(&mut self) -> (r: Result<bool, IoError>)
        ensures
            old(self).sure_read() ==> r is Ok,
            Self::read_rel(*old(self), *final(self), r),
    ;
}

/// A GPIO access mechanism: opens physical pins for exclusive reading.
pub trait GpioBackend: Sized {
    /// The open-pin resource this backend hands out.
    type Input: DigitalInput;

    /// Whether opening `pin` is sure to succeed. A backend that cannot
    /// promise anything (real hardware) answers `false` everywhere.
    spec fn sure_open(&self, pin: u32) -> bool;

    /// What one open of `pin` does: how it relates the backend before
    /// (`pre`) and after (`post`) and which result `r` it returns. Each
    /// backend defines this as precisely as its mechanism allows.
    spec fn open_rel(pre: Self, post: Self, pin: u32, r: Result<Self::Input, OpenError>) -> bool;

    /// Acquire exclusive access to the physical pin `pin`.
    fn open(&mut self, pin: u32) -> (r: Result<Self::Input, OpenError>)
        ensures
            old(self).sure_open(pin) ==> r is Ok,
            Self::open_rel(*old(self), *final(self), pin, r),
    ;
}

/// An in-memory open pin that replays a fixed sequence of levels, one per
/// read, and fails once the sequence is exhausted.
pub struct ScriptedInput {
    /// The levels to replay, in read order.
    pub levels: Vec<bool>,
    /// How many reads have already happened.
    pub pos: usize,
}

impl ScriptedInput {
    /// A scripted pin that will replay `levels` from the start.
    pub fn new(levels: Vec<bool>) -> (r: ScriptedInput)
        ensures
            r.levels == levels,
            r.pos == 0,
    {
        ScriptedInput { levels, pos: 0 }
    }
}

impl DigitalInput for ScriptedInput {
    /// A read is sure to succeed while scripted levels remain.
    open spec fn sure_read(&self) -> bool {
        self.pos < self.levels@.len()
    }

    /// A read replays exactly the next scripted level and advances past
    /// it; once the script is exhausted it fails and changes nothing.
    open spec fn read_rel(pre: Self, post: Self, r: Result<bool, IoError>) -> bool {
        &&& post.levels == pre.levels
        &&& if pre.pos < pre.levels@.len() {
            r == Ok::<bool, IoError>(pre.levels@[pre.pos as int]) && post.pos == pre.pos + 1
        } else {
            r == Err::<bool, IoError>(IoError) && post == pre
        }
    }

    /// Replays the scripted levels in order; errors once they run out.
    fn read_level(&mut self) -> (r: Result<bool, IoError>) {
        if self.pos < self.levels.len() {
            let v = self.levels[self.pos];
            self.pos = self.pos + 1;
            Ok(v)
        } else {
            Err(IoError)
        }
    }
}

/// Whether some entry of `scripts` is for pin `pin`.
pub open spec fn has_script(scripts: Seq<(u32, Vec<bool>)>, pin: u32) -> bool {
    exists|k: int| 0 <= k < scripts.len() && (#[trigger] scripts[k]).0 == pin
}

/// Whether position `k` holds the first entry of `scripts` for pin `pin`.
pub open spec fn first_script_at(scripts: Seq<(u32, Vec<bool>)>, pin: u32, k: int) -> bool {
    &&& 0 <= k < scripts.len()
    &&& scripts[k].0 == pin
    &&& forall|j: int| 0 <= j < k ==> (#[trigger] scripts[j]).0 != pin
}

/// An in-memory backend: a table of per-pin level scripts. Opening a pin
/// consumes its script entry, so opening the same pin twice fails — the
/// same exclusivity a real GPIO backend enforces.
pub struct ScriptedBackend {
    /// The remaining (pin, levels) entries, each openable once.
    pub scripts: Vec<(u32, Vec<bool>)>,
}

impl ScriptedBackend {
    /// A backend with no openable pins yet.
    pub fn new() -> (r: ScriptedBackend)
        ensures
            r.scripts@.len() == 0,
    {
        ScriptedBackend { scripts: Vec::new() }
    }

    /// Make `pin` openable once, replaying `levels`.
    pub fn add_script(&mut self, pin: u32, levels: Vec<bool>)
        ensures
            final(self).scripts@ == old(self).scripts@.push((pin, levels)),
    {
        self.scripts.push((pin, levels));
    }
}

impl GpioBackend for ScriptedBackend {
    type Input = ScriptedInput;

    /// An open is sure to succeed while a script entry for the pin remains.
    open spec fn sure_open(&self, pin: u32) -> bool {
        has_script(self.scripts@, pin)
    }

    /// An open succeeds exactly when the table still holds an entry for
    /// the pin; it consumes the first such entry and hands out its script,
    /// positioned at the start. A failed open changes nothing.
    open spec fn open_rel(
        pre: Self,
        post: Self,
        pin: u32,
        r: Result<ScriptedInput, OpenError>,
    ) -> bool {
        &&& (r is Ok <==> has_script(pre.scripts@, pin))
        &&& (r is Err ==> post == pre && r == Err::<ScriptedInput, OpenError>(OpenError))
        &&& (r is Ok ==> exists|k: int|
            #[trigger] first_script_at(pre.scripts@, pin, k)
            && post.scripts@ == pre.scripts@.remove(k)
            && r->Ok_0.levels == pre.scripts@[k].1
            && r->Ok_0.pos == 0)
    }

    /// Opens the first remaining script entry for `pin`, removing it, so a
    /// second open of the same pin fails. Success depends only on this
    /// backend's own table: independent backends never share state.
    fn open(&mut self, pin: u32) -> (r: Result<ScriptedInput, OpenError>) {
        let n = self.scripts.len();
        let mut idx: usize = n;
        let mut i: usize = 0;
        while i < n
            invariant
                n == self.scripts.len(),
                *self == *old(self),
                i <= n,
                idx <= n,
                idx == n ==> forall|j: int| 0 <= j < i ==> (#[trigger] self.scripts@[j]).0 != pin,
                idx < n ==> first_script_at(self.scripts@, pin, idx as int),
            decreases n - i,
        {
            if idx == n && self.scripts[i].0 == pin {
                idx = i;
            }
            i = i + 1;
        }
        if idx < n {
            let entry = self.scripts.remove(idx);
            proof {
                assert(first_script_at(old(self).scripts@, pin, idx as int));
            }
            Ok(ScriptedInput { levels: entry.1, pos: 0 })
        } else {
            proof {
                assert(forall|j: int|
                    0 <= j < old(self).scripts@.len() ==> (#[trigger] old(
                        self,
                    ).scripts@[j]).0 != pin);
            }
            Err(OpenError)
        }
    }
}

} // verus!
