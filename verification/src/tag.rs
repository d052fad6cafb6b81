//! Tags: parsing of `NAME=value` strings and iteration over a device's
//! tags.
//!
//! The tag iterator wraps a native cursor that is advanced one native
//! call at a time; the sequence of items it yields is a pure function of
//! those advance outcomes, which is what makes iteration deterministic
//! while the underlying collection is unchanged.

use vstd::prelude::*;
use vstd::string::*;
use vstd::utf8::{decode_utf8, valid_utf8};

use crate::encode::bytes_to_string;
use crate::err::BlkidErr;

verus! {

/// Index of the first occurrence of `c` in `s`, or minus one when there
/// is none.
pub open spec fn find_first(s: Seq<char>, c: char) -> int
    decreases s.len(),
{
    if s.len() == 0 {
        -1
    } else if s[0] == c {
        0
    } else if find_first(s.skip(1), c) == -1 {
        -1
    } else {
        find_first(s.skip(1), c) + 1
    }
}

/// Index of the last occurrence of `c` in `s`, or minus one when there
/// is none.
pub open spec fn find_last(s: Seq<char>, c: char) -> int
    decreases s.len(),
{
    if s.len() == 0 {
        -1
    } else if s.last() == c {
        s.len() - 1
    } else {
        find_last(s.drop_last(), c)
    }
}

/// What `find_first` finds: the smallest index holding `c`, or minus one
/// exactly when `c` does not occur.
pub proof fn lemma_find_first(s: Seq<char>, c: char)
    ensures
        find_first(s, c) == -1 ==> forall|j: int| 0 <= j < s.len() ==> s[j] != c,
        find_first(s, c) != -1 ==> 0 <= find_first(s, c) < s.len() && s[find_first(s, c)] == c
            && (forall|j: int| 0 <= j < find_first(s, c) ==> s[j] != c),
    decreases s.len(),
{
    if s.len() == 0 {
    } else if s[0] == c {
    } else {
        let t = s.skip(1);
        lemma_find_first(t, c);
        if find_first(t, c) == -1 {
            assert forall|j: int| 0 <= j < s.len() implies s[j] != c by {
                if j > 0 {
                    assert(t[j - 1] == s[j]);
                }
            }
        } else {
            let f1 = find_first(t, c);
            assert(t[f1] == s[f1 + 1]);
            assert forall|j: int| 0 <= j < f1 + 1 implies s[j] != c by {
                if j > 0 {
                    assert(t[j - 1] == s[j]);
                }
            }
        }
    }
}

/// What `find_last` finds: the largest index holding `c`, or minus one
/// exactly when `c` does not occur.
pub proof fn lemma_find_last(s: Seq<char>, c: char)
    ensures
        find_last(s, c) == -1 ==> forall|j: int| 0 <= j < s.len() ==> s[j] != c,
        find_last(s, c) != -1 ==> 0 <= find_last(s, c) < s.len() && s[find_last(s, c)] == c && (
        forall|j: int| find_last(s, c) < j < s.len() ==> s[j] != c),
    decreases s.len(),
{
    if s.len() == 0 {
    } else if s.last() == c {
    } else {
        let t = s.drop_last();
        lemma_find_last(t, c);
        assert forall|j: int| 0 <= j < t.len() implies t[j] == s[j] by {
            assert(t[j] == s[j]);
        }
    }
}

/// Find the first occurrence of `c` in `s`.
pub(crate) fn find_char_first(s: &str, c: char) -> (r: Option<usize>)
    ensures
        r matches Some(i) && i == find_first(s@, c) || (r is None && find_first(s@, c) == -1),
{
    let n = s.unicode_len();
    let mut i: usize = 0;
    while i < n
        invariant
            i <= n,
            n == s@.len(),
            forall|j: int| 0 <= j < i ==> s@[j] != c,
        decreases n - i,
    {
        if s.get_char(i) == c {
            proof {
                lemma_find_first(s@, c);
            }
            return Some(i);
        }
        i = i + 1;
    }
    proof {
        lemma_find_first(s@, c);
    }
    None
}

/// Find the last occurrence of `c` in `s`.
fn find_char_last(s: &str, c: char) -> (r: Option<usize>)
    ensures
        r matches Some(i) && i == find_last(s@, c) || (r is None && find_last(s@, c) == -1),
{
    let n = s.unicode_len();
    let mut i: usize = n;
    while i > 0
        invariant
            i <= n,
            n == s@.len(),
            forall|j: int| i <= j < n ==> s@[j] != c,
        decreases i,
    {
        if s.get_char(i - 1) == c {
            proof {
                lemma_find_last(s@, c);
            }
            return Some(i - 1);
        }
        i = i - 1;
    }
    proof {
        lemma_find_last(s@, c);
    }
    None
}

/// The parse of a tag string: the name before the first equals sign and
/// the value after it.  A value opening with a quote character must close
/// with the same character; the value is then what stands between the
/// opening quote and its last occurrence.  No equals sign, or a missing
/// closing quote, is a failed parse.
pub open spec fn spec_parse_tag(s: Seq<char>) -> Option<(Seq<char>, Seq<char>)> {
    let eq = find_first(s, '=');
    if eq < 0 {
        None
    } else {
        let name = s.take(eq);
        let raw = s.skip(eq + 1);
        if raw.len() > 0 && (raw[0] == '"' || raw[0] == '\'') {
            let rest = raw.skip(1);
            let close = find_last(rest, raw[0]);
            if close < 0 {
                None
            } else {
                Some((name, rest.take(close)))
            }
        } else {
            Some((name, raw))
        }
    }
}

/// Parse a tag string into its name and value.  A string holding an
/// embedded null character fails with a conversion error; one the native
/// parser would reject, because it has no equals sign or no closing
/// quote, fails with the native-failure error that rejection produces.
pub fn parse_tag_string(tag_string: &str) -> (r: Result<(String, String), BlkidErr>)
    ensures
        tag_string@.contains('\u{0}') ==> r == Err::<(String, String), BlkidErr>(
            BlkidErr::InvalidConversion,
        ),
        !tag_string@.contains('\u{0}') ==> (match spec_parse_tag(tag_string@) {
            None => r == Err::<(String, String), BlkidErr>(BlkidErr::NativeFailure),
            Some(p) => r matches Ok(t) && t.0@ == p.0 && t.1@ == p.1,
        }),
{
    let n = tag_string.unicode_len();
    let mut i: usize = 0;
    while i < n
        invariant
            i <= n,
            n == tag_string@.len(),
            forall|j: int| 0 <= j < i ==> tag_string@[j] != '\u{0}',
        decreases n - i,
    {
        if tag_string.get_char(i) == '\u{0}' {
            return Err(BlkidErr::InvalidConversion);
        }
        i = i + 1;
    }
    proof {
        if tag_string@.contains('\u{0}') {
            let j = choose|j: int|
                0 <= j < tag_string@.len() && tag_string@[j] == '\u{0}';
            assert(tag_string@[j] != '\u{0}');
        }
    }
    let eq = match find_char_first(tag_string, '=') {
        Some(i) => i,
        None => {
            return Err(BlkidErr::NativeFailure);
        },
    };
    proof {
        lemma_find_first(tag_string@, '=');
    }
    let name = tag_string.substring_char(0, eq);
    proof {
        assert(name@ =~= tag_string@.take(eq as int));
    }
    let ghost raw = tag_string@.skip(eq + 1);
    if eq + 1 < n {
        let first = tag_string.get_char(eq + 1);
        proof {
            assert(raw[0] == tag_string@[eq + 1]);
        }
        if first == '"' || first == '\'' {
            let rest = tag_string.substring_char(eq + 2, n);
            proof {
                assert(rest@ =~= raw.skip(1));
            }
            let close = match find_char_last(rest, first) {
                Some(i) => i,
                None => {
                    return Err(BlkidErr::NativeFailure);
                },
            };
            proof {
                lemma_find_last(rest@, first);
            }
            let value = rest.substring_char(0, close);
            proof {
                assert(value@ =~= rest@.take(close as int));
            }
            return Ok((name.to_owned(), value.to_owned()));
        }
    }
    let value = tag_string.substring_char(eq + 1, n);
    proof {
        assert(value@ =~= raw);
        if raw.len() > 0 {
            assert(raw[0] == tag_string@[eq + 1]);
        }
    }
    Ok((name.to_owned(), value.to_owned()))
}

/// One advance outcome of the native tag cursor: the status code of the
/// native call and, when it is nonnegative, the bytes of the tag's type
/// and value.
pub struct TagStep {
    /// Status code the native advance returned.
    pub status: i32,
    /// Bytes of the tag type the native advance produced.
    pub type_bytes: Option<Vec<u8>>,
    /// Bytes of the tag value the native advance produced.
    pub value_bytes: Option<Vec<u8>>,
}

/// The item one advance outcome yields: nothing when the cursor reports
/// exhaustion or the bytes are not text, the decoded pair otherwise.
pub open spec fn step_item(s: TagStep) -> Option<(Seq<char>, Seq<char>)> {
    match (s.type_bytes, s.value_bytes) {
        (Some(t), Some(v)) => if s.status < 0 {
            None
        } else if valid_utf8(t@) && valid_utf8(v@) {
            Some((decode_utf8(t@), decode_utf8(v@)))
        } else {
            None
        },
        _ => None,
    }
}

/// The items a sequence of advance outcomes yields: one item per outcome
/// until the first outcome that yields none, which ends the iteration.
pub open spec fn tag_items(steps: Seq<TagStep>) -> Seq<(Seq<char>, Seq<char>)>
    decreases steps.len(),
{
    if steps.len() == 0 {
        Seq::empty()
    } else {
        match step_item(steps[0]) {
            Some(item) => seq![item] + tag_items(steps.skip(1)),
            None => Seq::empty(),
        }
    }
}

/// Law (finite iteration): however the native cursor behaves, an
/// iteration driven by finitely many advance outcomes yields at most that
/// many items.
pub proof fn lemma_tag_items_finite(steps: Seq<TagStep>)
    ensures
        tag_items(steps).len() <= steps.len(),
    decreases steps.len(),
{
    if steps.len() == 0 {
    } else {
        match step_item(steps[0]) {
            Some(_) => {
                lemma_tag_items_finite(steps.skip(1));
            },
            None => {},
        }
    }
}

/// Every advance outcome in the sequence yields an item.
pub open spec fn all_yield(steps: Seq<TagStep>) -> bool {
    forall|i: int| 0 <= i < steps.len() ==> (#[trigger] step_item(steps[i])) is Some
}

/// Appending one advance outcome to a sequence whose outcomes all yield
/// items appends that outcome's item, or ends the iteration.
proof fn lemma_tag_items_push(steps: Seq<TagStep>, s: TagStep)
    requires
        all_yield(steps),
    ensures
        tag_items(steps.push(s)) == (match step_item(s) {
            Some(item) => tag_items(steps).push(item),
            None => tag_items(steps),
        }),
    decreases steps.len(),
{
    let whole = steps.push(s);
    if steps.len() == 0 {
        assert(whole[0] == s);
        assert(whole.skip(1) =~= Seq::<TagStep>::empty());
        match step_item(s) {
            Some(item) => {
                assert(tag_items(whole.skip(1)) =~= Seq::<(Seq<char>, Seq<char>)>::empty());
                assert(tag_items(whole) == seq![item] + tag_items(whole.skip(1)));
                assert(tag_items(whole) =~= seq![item]);
                assert(tag_items(steps).push(item) =~= seq![item]);
            },
            None => {},
        }
    } else {
        assert(step_item(steps[0]) is Some);
        assert(whole[0] == steps[0]);
        assert(whole.skip(1) =~= steps.skip(1).push(s));
        assert(all_yield(steps.skip(1))) by {
            assert(forall|i: int|
                0 <= i < steps.skip(1).len() ==> steps.skip(1)[i] == steps[i + 1]);
        }
        lemma_tag_items_push(steps.skip(1), s);
        match step_item(s) {
            Some(item) => {
                assert(tag_items(whole) =~= tag_items(steps).push(item));
            },
            None => {
                assert(tag_items(whole) =~= tag_items(steps));
            },
        }
    }
}

/// Iterator over the tags of a device.  It models the native cursor's
/// life: each call of `next` consumes the outcome of one native advance,
/// and the items yielded so far are a pure function of those outcomes.
pub struct BlkidTagIter {
    done: bool,
    history: Ghost<Seq<TagStep>>,
    items: Ghost<Seq<(Seq<char>, Seq<char>)>>,
}

impl BlkidTagIter {
    /// True once the iteration has ended; it cannot be restarted.
    pub closed spec fn spec_done(self) -> bool {
        self.done
    }

    /// Whether the iteration has ended.
    pub fn is_done(&self) -> (r: bool)
        ensures
            r == self.spec_done(),
    {
        self.done
    }

    /// The advance outcomes consumed so far.
    pub closed spec fn spec_history(self) -> Seq<TagStep> {
        self.history@
    }

    /// The items yielded so far.
    pub closed spec fn spec_items(self) -> Seq<(Seq<char>, Seq<char>)> {
        self.items@
    }

    /// Well-formedness: the items yielded so far are exactly what the
    /// consumed advance outcomes determine.
    pub open spec fn inv(self) -> bool {
        &&& self.spec_items() == tag_items(self.spec_history())
        &&& (!self.spec_done() ==> all_yield(self.spec_history()))
    }

    /// Create the model of a freshly constructed tag cursor.
    pub fn new() -> (r: Self)
        ensures
            r.inv(),
            !r.spec_done(),
            r.spec_history() == Seq::<TagStep>::empty(),
            r.spec_items() == Seq::<(Seq<char>, Seq<char>)>::empty(),
    {
        BlkidTagIter { done: false, history: Ghost(Seq::empty()), items: Ghost(Seq::empty()) }
    }

    /// Consume the outcome of one native advance and yield its item: a
    /// negative status ends the iteration, and so does a pair of values
    /// that does not decode as text; anything else is the next tag.
    pub fn next(&mut self, step: TagStep) -> (r: Option<(String, String)>)
        requires
            old(self).inv(),
            !old(self).spec_done(),
            step.status >= 0 ==> step.type_bytes is Some && step.value_bytes is Some,
        ensures
            final(self).inv(),
            final(self).spec_history() == old(self).spec_history().push(step),
            match step_item(step) {
                Some(item) => {
                    &&& r matches Some(p)
                    &&& p.0@ == item.0
                    &&& p.1@ == item.1
                    &&& !final(self).spec_done()
                    &&& final(self).spec_items() == old(self).spec_items().push(item)
                },
                None => {
                    &&& r is None
                    &&& final(self).spec_done()
                    &&& final(self).spec_items() == old(self).spec_items()
                },
            },
    {
        proof {
            lemma_tag_items_push(self.history@, step);
        }
        self.history = Ghost(self.history@.push(step));
        if step.status < 0 {
            self.done = true;
            return None;
        }
        let ghost spec_step = step;
        let TagStep { status: _, type_bytes, value_bytes } = step;
        let t = type_bytes.unwrap();
        let v = value_bytes.unwrap();
        let ts = match bytes_to_string(t) {
            Ok(ts) => ts,
            Err(_) => {
                self.done = true;
                return None;
            },
        };
        let vs = match bytes_to_string(v) {
            Ok(vs) => vs,
            Err(_) => {
                self.done = true;
                return None;
            },
        };
        self.items = Ghost(self.items@.push(step_item(spec_step)->0));
        Some((ts, vs))
    }
}

/// Law (deterministic iteration): two tag iterations that consumed the
/// same advance outcomes have yielded the same items; given an unchanged
/// underlying collection, re-iterating reproduces the sequence.
pub proof fn lemma_tag_iteration_deterministic(a: BlkidTagIter, b: BlkidTagIter)
    requires
        a.inv(),
        b.inv(),
        a.spec_history() == b.spec_history(),
    ensures
        a.spec_items() == b.spec_items(),
{
}

} // verus!
