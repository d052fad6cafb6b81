//! Devices found in the cache and iteration over them.
//!
//! A device value is a non-owning reference into state held by the cache
//! that produced it, so the model carries no state of its own; what the
//! native layer reports about a device is translated by the methods here.
//! The device iterator wraps a native cursor distinct from the cache; as
//! with the tag iterator, the devices it yields are a pure function of
//! the native advance outcomes.

use vstd::prelude::*;
use vstd::string::*;
use vstd::utf8::{decode_utf8, valid_utf8};

use crate::encode::{bytes_to_string, nul_free, to_native_text};
use crate::err::{translate_ptr, translate_status, BlkidErr};
use crate::tag::BlkidTagIter;

verus! {

/// Size of a device as reported by the native library.
#[derive(Clone, Copy, Debug, PartialEq, Eq, Structural)]
pub struct BlkidSize {
    size: i64,
}

impl BlkidSize {
    /// The native size value held.
    pub closed spec fn spec_size(self) -> i64 {
        self.size
    }

    /// Wrap a native size value.
    pub fn new(size: i64) -> (r: Self)
        ensures
            r.spec_size() == size,
    {
        BlkidSize { size }
    }

    /// The size as a plain number.
    pub fn value(&self) -> (r: i64)
        ensures
            r == self.spec_size(),
    {
        self.size
    }
}

/// A block device found in the cache: a non-owning view whose validity is
/// bounded by the cache or iterator that produced it.
#[derive(Debug)]
pub struct BlkidDev {}

impl BlkidDev {
    /// Wrap a native device reference.
    pub fn new() -> Self {
        BlkidDev {}
    }

    /// The device name of this device.  The native lookup hands back a
    /// C string or null; that outcome, given here as the name's bytes,
    /// is translated.
    pub fn devname(&self, outcome: Option<Vec<u8>>) -> (r: Result<String, BlkidErr>)
        ensures
            outcome is None ==> r == Err::<String, BlkidErr>(BlkidErr::NativeFailure),
            outcome matches Some(b) ==> (if valid_utf8(b@) {
                r matches Ok(s) && s@ == decode_utf8(b@)
            } else {
                r == Err::<String, BlkidErr>(BlkidErr::InvalidConversion)
            }),
    {
        let bytes = translate_ptr(outcome)?;
        bytes_to_string(bytes)
    }

    /// Begin iterating over the tags of this device: a fresh cursor that
    /// has consumed nothing and yielded nothing.
    pub fn tag_iter(&self) -> (r: BlkidTagIter)
        ensures
            r.inv(),
            !r.spec_done(),
            r.spec_history() == Seq::<crate::tag::TagStep>::empty(),
    {
        BlkidTagIter::new()
    }

    /// Whether this device carries the given tag.  The native check
    /// reports a plain integer; zero means absent.  A tag type or value
    /// holding an embedded null byte fails with a conversion error before
    /// any native call can be issued.
    pub fn has_tag(&self, type_: &str, value: &str, raw: Option<i32>) -> (r: Result<
        bool,
        BlkidErr,
    >)
        requires
            nul_free(type_.spec_bytes()) && nul_free(value.spec_bytes()) ==> raw is Some,
        ensures
            !nul_free(type_.spec_bytes()) || !nul_free(value.spec_bytes()) ==> r == Err::<
                bool,
                BlkidErr,
            >(BlkidErr::InvalidConversion),
            nul_free(type_.spec_bytes()) && nul_free(value.spec_bytes()) ==> (match raw {
                Some(v) => r == Ok::<bool, BlkidErr>(v != 0),
                None => true,
            }),
    {
        if to_native_text(type_).is_err() {
            return Err(BlkidErr::InvalidConversion);
        }
        if to_native_text(value).is_err() {
            return Err(BlkidErr::InvalidConversion);
        }
        match raw {
            Some(v) => Ok(v != 0),
            None => Err(BlkidErr::InvalidConversion),
        }
    }
}

/// One advance outcome of the native device cursor: the status code of
/// the native call and, when it is nonnegative, the device it produced.
pub struct DevStep {
    /// Status code the native advance returned.
    pub status: i32,
    /// The device the native advance produced.
    pub found: Option<BlkidDev>,
}

/// Whether one advance outcome yields a device: exactly when the cursor
/// did not report exhaustion.
pub open spec fn dev_step_yields(s: DevStep) -> bool {
    s.status >= 0
}

/// The number of devices a sequence of advance outcomes yields: one per
/// outcome until the first that reports exhaustion.
pub open spec fn dev_item_count(steps: Seq<DevStep>) -> nat
    decreases steps.len(),
{
    if steps.len() == 0 {
        0
    } else if steps[0].status < 0 {
        0
    } else {
        1 + dev_item_count(steps.skip(1))
    }
}

/// Law (finite iteration): a device iteration driven by finitely many
/// advance outcomes yields at most that many devices.
pub proof fn lemma_dev_items_finite(steps: Seq<DevStep>)
    ensures
        dev_item_count(steps) <= steps.len(),
    decreases steps.len(),
{
    if steps.len() == 0 {
    } else if steps[0].status < 0 {
    } else {
        lemma_dev_items_finite(steps.skip(1));
    }
}

/// Every advance outcome in the sequence yields a device.
pub open spec fn all_dev_yield(steps: Seq<DevStep>) -> bool {
    forall|i: int| 0 <= i < steps.len() ==> dev_step_yields(#[trigger] steps[i])
}

/// Appending one advance outcome to a sequence whose outcomes all yield
/// counts it, or ends the iteration.
proof fn lemma_dev_items_push(steps: Seq<DevStep>, s: DevStep)
    requires
        all_dev_yield(steps),
    ensures
        dev_item_count(steps.push(s)) == (if dev_step_yields(s) {
            dev_item_count(steps) + 1
        } else {
            dev_item_count(steps)
        }),
    decreases steps.len(),
{
    let whole = steps.push(s);
    if steps.len() == 0 {
        assert(whole[0] == s);
        assert(whole.skip(1) =~= Seq::<DevStep>::empty());
        assert(dev_item_count(whole.skip(1)) == 0);
    } else {
        assert(dev_step_yields(steps[0]));
        assert(whole[0] == steps[0]);
        assert(whole.skip(1) =~= steps.skip(1).push(s));
        assert(all_dev_yield(steps.skip(1))) by {
            assert(forall|i: int|
                0 <= i < steps.skip(1).len() ==> steps.skip(1)[i] == steps[i + 1]);
        }
        lemma_dev_items_push(steps.skip(1), s);
        assert(dev_item_count(whole) == 1 + dev_item_count(steps.skip(1).push(s)));
        assert(dev_item_count(steps) == 1 + dev_item_count(steps.skip(1)));
    }
}

/// Iterator over the devices of a cache.  Each call of `next` consumes
/// the outcome of one native cursor advance; the devices yielded so far
/// are a pure function of those outcomes.
pub struct BlkidDevIter {
    done: bool,
    history: Ghost<Seq<DevStep>>,
    yielded: Ghost<nat>,
}

impl BlkidDevIter {
    /// True once the iteration has ended; it cannot be restarted.
    pub closed spec fn spec_done(self) -> bool {
        self.done
    }

    /// Whether the iteration has ended.
    pub fn is_done(&self) -> (r: bool)
        ensures
            r == self.spec_done(),
    {
        self.done
    }

    /// The advance outcomes consumed so far.
    pub closed spec fn spec_history(self) -> Seq<DevStep> {
        self.history@
    }

    /// How many devices have been yielded so far.
    pub closed spec fn spec_yielded(self) -> nat {
        self.yielded@
    }

    /// Well-formedness: the devices yielded so far are exactly what the
    /// consumed advance outcomes determine.
    pub open spec fn inv(self) -> bool {
        &&& self.spec_yielded() == dev_item_count(self.spec_history())
        &&& (!self.spec_done() ==> all_dev_yield(self.spec_history()))
    }

    /// Create the model of a freshly constructed device cursor.
    pub fn new() -> (r: Self)
        ensures
            r.inv(),
            !r.spec_done(),
            r.spec_history() == Seq::<DevStep>::empty(),
            r.spec_yielded() == 0,
    {
        BlkidDevIter { done: false, history: Ghost(Seq::empty()), yielded: Ghost(0) }
    }

    /// Narrow the iteration to devices carrying the given tag.  The
    /// native call applies the filter and reports a status code.  A tag
    /// type or value holding an embedded null byte fails with a
    /// conversion error before any native call can be issued; the filter
    /// must be applied before consuming any element.
    pub fn search(self, search_type: &str, search_value: &str, status: Option<i32>) -> (r: Result<
        BlkidDevIter,
        BlkidErr,
    >)
        requires
            nul_free(search_type.spec_bytes()) && nul_free(search_value.spec_bytes())
                ==> status is Some,
        ensures
            !nul_free(search_type.spec_bytes()) || !nul_free(search_value.spec_bytes()) ==> r
                == Err::<BlkidDevIter, BlkidErr>(BlkidErr::InvalidConversion),
            nul_free(search_type.spec_bytes()) && nul_free(search_value.spec_bytes()) ==> (
            match status {
                Some(c) => (if c == 0 {
                    r matches Ok(it) && it == self
                } else if c < 0 {
                    r == Err::<BlkidDevIter, BlkidErr>(BlkidErr::NativeFailure)
                } else {
                    r == Err::<BlkidDevIter, BlkidErr>(BlkidErr::UnexpectedPositiveCode)
                }),
                None => true,
            }),
    {
        if to_native_text(search_type).is_err() {
            return Err(BlkidErr::InvalidConversion);
        }
        if to_native_text(search_value).is_err() {
            return Err(BlkidErr::InvalidConversion);
        }
        match status {
            Some(c) => {
                translate_status(c)?;
                Ok(self)
            },
            None => Err(BlkidErr::InvalidConversion),
        }
    }

    /// Consume the outcome of one native advance and yield its device: a
    /// negative status ends the iteration, anything else is the next
    /// device.
    pub fn next(&mut self, step: DevStep) -> (r: Option<BlkidDev>)
        requires
            old(self).inv(),
            !old(self).spec_done(),
            step.status >= 0 ==> step.found is Some,
        ensures
            final(self).inv(),
            final(self).spec_history() == old(self).spec_history().push(step),
            dev_step_yields(step) ==> {
                &&& r is Some
                &&& !final(self).spec_done()
                &&& final(self).spec_yielded() == old(self).spec_yielded() + 1
            },
            !dev_step_yields(step) ==> {
                &&& r is None
                &&& final(self).spec_done()
                &&& final(self).spec_yielded() == old(self).spec_yielded()
            },
    {
        proof {
            lemma_dev_items_push(self.history@, step);
        }
        self.history = Ghost(self.history@.push(step));
        if step.status < 0 {
            self.done = true;
            None
        } else {
            self.yielded = Ghost(self.yielded@ + 1);
            Some(step.found.unwrap())
        }
    }
}

/// Law (deterministic iteration): two device iterations that consumed
/// the same advance outcomes have yielded the same number of devices;
/// given an unchanged underlying cache, re-iterating reproduces the
/// sequence.
pub proof fn lemma_dev_iteration_deterministic(a: BlkidDevIter, b: BlkidDevIter)
    requires
        a.inv(),
        b.inv(),
        a.spec_history() == b.spec_history(),
    ensures
        a.spec_yielded() == b.spec_yielded(),
{
}

} // verus!
