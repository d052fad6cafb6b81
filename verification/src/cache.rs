//! The device cache: a persisted registry of discovered devices.
//!
//! The wrapper owns exactly one native cache handle, and the central
//! design decision is the release pairing: the handle is freed exactly
//! once, by the drop path while the wrapper still owns it, or by the
//! native put operation that persists and releases it — never both.  The
//! ownership state written here decides which, and makes a double free
//! unprovable.

use vstd::prelude::*;
use vstd::string::*;

use crate::consts::BlkidDevFlags;
use crate::dev::{BlkidDev, BlkidDevIter};
use crate::encode::{
    contains_nul_char, has_nul_char, nul_free, spec_text_outcome, to_native_text,
};
use crate::err::{translate_status, BlkidErr};
use crate::tag::{find_char_first, find_first, lemma_find_first};

verus! {

/// Who is responsible for releasing the native cache handle.
#[derive(Clone, Copy, Debug, PartialEq, Eq, Structural)]
pub enum CacheOwnership {
    /// This wrapper owns the handle and must release it on drop.
    Owned,
    /// The handle belongs to someone else; this wrapper must never
    /// release it.
    Borrowed,
    /// The native put operation released the handle already; releasing
    /// it again would be a double free.
    Released,
}

/// The message produced when a token is not of the `NAME=value` shape.
pub open spec fn spec_token_format_msg() -> Seq<char> {
    "Token input requires the format NAME=value"@
}

/// A tag lookup request: either an unparsed `NAME=value` token or the
/// name and value as a pair.
pub enum TagQuery<'a> {
    /// An unparsed token of the shape `NAME=value`.
    Token(&'a str),
    /// The tag name and value, already split.
    Pair(&'a str, &'a str),
}

/// The split of a token at its equals signs, as the devname lookup
/// performs it: the name before the first equals sign and the value
/// between the first and the second, or up to the end when there is no
/// second.  A token without any equals sign does not split.
pub open spec fn spec_split_token(s: Seq<char>) -> Option<(Seq<char>, Seq<char>)> {
    let eq = find_first(s, '=');
    if eq < 0 {
        None
    } else {
        let rest = s.skip(eq + 1);
        let eq2 = find_first(rest, '=');
        if eq2 < 0 {
            Some((s.take(eq), rest))
        } else {
            Some((s.take(eq), rest.take(eq2)))
        }
    }
}

/// The cache wrapper: the ownership state deciding the release pairing
/// of the native handle.
#[derive(Debug)]
pub struct BlkidCache {
    ownership: CacheOwnership,
}

impl BlkidCache {
    /// Who is responsible for releasing the native handle.
    pub closed spec fn spec_ownership(self) -> CacheOwnership {
        self.ownership
    }

    /// True exactly when the drop path must free the native handle.
    pub open spec fn spec_must_free(self) -> bool {
        self.spec_ownership() is Owned
    }

    /// Allocate and initialize a cache handle, owned by this wrapper.
    /// The native call opens or creates the backing file, using the
    /// default path when none is given, and reports a status code.  A
    /// path holding an embedded null byte fails with a conversion error
    /// before any native call can be issued.
    pub fn get_cache(filename: Option<&str>, status: Option<i32>) -> (r: Result<
        BlkidCache,
        BlkidErr,
    >)
        requires
            (match filename {
                Some(f) => nul_free(f.spec_bytes()),
                None => true,
            }) ==> status is Some,
        ensures
            (match filename {
                Some(f) => !nul_free(f.spec_bytes()),
                None => false,
            }) ==> r == Err::<BlkidCache, BlkidErr>(BlkidErr::InvalidConversion),
            (match filename {
                Some(f) => nul_free(f.spec_bytes()),
                None => true,
            }) ==> (match status {
                Some(c) => (if c == 0 {
                    r matches Ok(cache) && cache.spec_ownership() is Owned
                } else if c < 0 {
                    r == Err::<BlkidCache, BlkidErr>(BlkidErr::NativeFailure)
                } else {
                    r == Err::<BlkidCache, BlkidErr>(BlkidErr::UnexpectedPositiveCode)
                }),
                None => true,
            }),
    {
        match filename {
            Some(f) => {
                if to_native_text(f).is_err() {
                    return Err(BlkidErr::InvalidConversion);
                }
            },
            None => {},
        }
        match status {
            Some(c) => {
                translate_status(c)?;
                Ok(BlkidCache { ownership: CacheOwnership::Owned })
            },
            None => Err(BlkidErr::InvalidConversion),
        }
    }

    /// Wrap a cache handle that belongs to someone else; this wrapper
    /// will never release it.
    pub fn borrow_existing() -> (r: BlkidCache)
        ensures
            r.spec_ownership() is Borrowed,
            !r.spec_must_free(),
    {
        BlkidCache { ownership: CacheOwnership::Borrowed }
    }

    /// Save changes to the cache file.  The native put operation both
    /// persists and releases the handle, so it may only run while this
    /// wrapper still owns it, and afterwards the drop path must not free.
    pub fn put_cache(&mut self)
        requires
            old(self).spec_ownership() is Owned,
        ensures
            final(self).spec_ownership() is Released,
            !final(self).spec_must_free(),
    {
        self.ownership = CacheOwnership::Released;
    }

    /// Decide whether the drop path must issue the native free call:
    /// exactly when this wrapper still owns the handle.
    pub fn must_free_on_drop(&self) -> (r: bool)
        ensures
            r == self.spec_must_free(),
    {
        match self.ownership {
            CacheOwnership::Owned => true,
            CacheOwnership::Borrowed => false,
            CacheOwnership::Released => false,
        }
    }

    /// Remove nonexistent devices from the cache.  The native call does
    /// the garbage collection and reports nothing; the ownership state
    /// is unchanged.
    pub fn gc_cache(&mut self)
        ensures
            *final(self) == *old(self),
    {
    }

    /// Begin iterating over the cached devices: a fresh cursor that has
    /// consumed nothing and yielded nothing.
    pub fn iter(&self) -> (r: BlkidDevIter)
        ensures
            r.inv(),
            !r.spec_done(),
            r.spec_history() == Seq::<crate::dev::DevStep>::empty(),
    {
        BlkidDevIter::new()
    }

    /// Probe for all block devices.  The native scan fills the cache and
    /// reports a status code, which is translated here.
    pub fn probe_all(&mut self, status: i32) -> (r: Result<(), BlkidErr>)
        ensures
            *final(self) == *old(self),
            status == 0 ==> r == Ok::<(), BlkidErr>(()),
            status < 0 ==> r == Err::<(), BlkidErr>(BlkidErr::NativeFailure),
            status > 0 ==> r == Err::<(), BlkidErr>(BlkidErr::UnexpectedPositiveCode),
    {
        translate_status(status)
    }

    /// Probe for all new block devices, as `probe_all` does for the
    /// whole set.
    pub fn probe_all_new(&mut self, status: i32) -> (r: Result<(), BlkidErr>)
        ensures
            *final(self) == *old(self),
            status == 0 ==> r == Ok::<(), BlkidErr>(()),
            status < 0 ==> r == Err::<(), BlkidErr>(BlkidErr::NativeFailure),
            status > 0 ==> r == Err::<(), BlkidErr>(BlkidErr::UnexpectedPositiveCode),
    {
        translate_status(status)
    }

    /// Probe for all removable block devices, as `probe_all` does for
    /// the whole set.
    pub fn probe_all_removable(&mut self, status: i32) -> (r: Result<(), BlkidErr>)
        ensures
            *final(self) == *old(self),
            status == 0 ==> r == Ok::<(), BlkidErr>(()),
            status < 0 ==> r == Err::<(), BlkidErr>(BlkidErr::NativeFailure),
            status > 0 ==> r == Err::<(), BlkidErr>(BlkidErr::UnexpectedPositiveCode),
    {
        translate_status(status)
    }

    /// Find a device by name in the cache.  With the create flag among
    /// `flags`, the native lookup synthesizes an empty cache entry for a
    /// device it does not know, so a usable entry comes back rather than
    /// a failure; a null handle is still translated to a native failure.
    /// A name holding an embedded null byte fails with a conversion
    /// error before any native call can be issued.
    pub fn get_dev(&self, devname: &str, flags: BlkidDevFlags, outcome: Option<Option<BlkidDev>>)
        -> (r: Result<BlkidDev, BlkidErr>)
        requires
            nul_free(devname.spec_bytes()) ==> outcome is Some,
        ensures
            !nul_free(devname.spec_bytes()) ==> r == Err::<BlkidDev, BlkidErr>(
                BlkidErr::InvalidConversion,
            ),
            nul_free(devname.spec_bytes()) ==> (match outcome {
                Some(o) => (match o {
                    Some(d) => r == Ok::<BlkidDev, BlkidErr>(d),
                    None => r == Err::<BlkidDev, BlkidErr>(BlkidErr::NativeFailure),
                }),
                None => true,
            }),
    {
        if to_native_text(devname).is_err() {
            return Err(BlkidErr::InvalidConversion);
        }
        let _ = flags;
        match outcome {
            Some(Some(d)) => Ok(d),
            Some(None) => Err(BlkidErr::NativeFailure),
            None => Err(BlkidErr::InvalidConversion),
        }
    }

    /// Get the value associated with a tag for the given device name.
    /// The native lookup hands back an allocated C string or null; that
    /// outcome, given here as the value's bytes, is translated.  A tag
    /// name or device name holding an embedded null byte fails with a
    /// conversion error before any native call can be issued.
    pub fn get_tag_value(&self, tag_name: &str, devname: &str, outcome: Option<Option<Vec<u8>>>)
        -> (r: Result<String, BlkidErr>)
        requires
            nul_free(tag_name.spec_bytes()) && nul_free(devname.spec_bytes()) ==> outcome is Some,
        ensures
            !nul_free(tag_name.spec_bytes()) || !nul_free(devname.spec_bytes()) ==> r == Err::<
                String,
                BlkidErr,
            >(BlkidErr::InvalidConversion),
            nul_free(tag_name.spec_bytes()) && nul_free(devname.spec_bytes()) ==> (match outcome {
                Some(o) => spec_text_outcome(o, r),
                None => true,
            }),
    {
        if to_native_text(tag_name).is_err() {
            return Err(BlkidErr::InvalidConversion);
        }
        if to_native_text(devname).is_err() {
            return Err(BlkidErr::InvalidConversion);
        }
        match outcome {
            Some(o) => {
                let bytes = crate::err::translate_ptr(o)?;
                crate::encode::bytes_to_string(bytes)
            },
            None => Err(BlkidErr::InvalidConversion),
        }
    }

    /// Get the device name for a tag, given either an unparsed
    /// `NAME=value` token or the pair.  A token without an equals sign
    /// fails with a validation message before anything else; a name or
    /// value holding an embedded null character fails with a conversion
    /// error; otherwise the outcome of the native lookup, given here as
    /// the device name's bytes, is translated.
    pub fn get_devname(&self, token_or_pair: TagQuery<'_>, outcome: Option<Option<Vec<u8>>>) -> (r:
        Result<String, BlkidErr>)
        requires
            spec_devname_request(token_or_pair) is Some ==> outcome is Some,
        ensures
            (match spec_devname_request(token_or_pair) {
                None => (match token_or_pair {
                    TagQuery::Token(t) => (if find_first(t@, '=') < 0 {
                        r matches Err(e) && e matches BlkidErr::Other(m) && m@
                            == spec_token_format_msg()
                    } else {
                        r == Err::<String, BlkidErr>(BlkidErr::InvalidConversion)
                    }),
                    TagQuery::Pair(_, _) => r == Err::<String, BlkidErr>(
                        BlkidErr::InvalidConversion,
                    ),
                }),
                Some(_) => (match outcome {
                    Some(o) => spec_text_outcome(o, r),
                    None => true,
                }),
            }),
    {
        match token_or_pair {
            TagQuery::Token(token) => {
                let n = token.unicode_len();
                let eq = match find_char_first(token, '=') {
                    Some(i) => i,
                    None => {
                        return Err(
                            BlkidErr::Other(
                                String::from_str("Token input requires the format NAME=value"),
                            ),
                        );
                    },
                };
                proof {
                    lemma_find_first(token@, '=');
                }
                let name = token.substring_char(0, eq);
                let rest = token.substring_char(eq + 1, n);
                proof {
                    assert(name@ =~= token@.take(eq as int));
                    assert(rest@ =~= token@.skip(eq + 1));
                }
                let value = match find_char_first(rest, '=') {
                    Some(i) => {
                        proof {
                            lemma_find_first(rest@, '=');
                        }
                        let v = rest.substring_char(0, i);
                        proof {
                            assert(v@ =~= rest@.take(i as int));
                        }
                        v
                    },
                    None => rest,
                };
                if contains_nul_char(name) || contains_nul_char(value) {
                    return Err(BlkidErr::InvalidConversion);
                }
                translate_devname_outcome(outcome)
            },
            TagQuery::Pair(name, value) => {
                if contains_nul_char(name) || contains_nul_char(value) {
                    return Err(BlkidErr::InvalidConversion);
                }
                translate_devname_outcome(outcome)
            },
        }
    }

    /// Find the device carrying the given tag.  The native scan hands
    /// back a device or null; null is translated to a native failure.
    /// A tag type or value holding an embedded null byte fails with a
    /// conversion error before any native call can be issued.
    pub fn find_dev_with_tag(&self, type_: &str, value: &str, outcome: Option<Option<BlkidDev>>)
        -> (r: Result<BlkidDev, BlkidErr>)
        requires
            nul_free(type_.spec_bytes()) && nul_free(value.spec_bytes()) ==> outcome is Some,
        ensures
            !nul_free(type_.spec_bytes()) || !nul_free(value.spec_bytes()) ==> r == Err::<
                BlkidDev,
                BlkidErr,
            >(BlkidErr::InvalidConversion),
            nul_free(type_.spec_bytes()) && nul_free(value.spec_bytes()) ==> (match outcome {
                Some(o) => (match o {
                    Some(d) => r == Ok::<BlkidDev, BlkidErr>(d),
                    None => r == Err::<BlkidDev, BlkidErr>(BlkidErr::NativeFailure),
                }),
                None => true,
            }),
    {
        if to_native_text(type_).is_err() {
            return Err(BlkidErr::InvalidConversion);
        }
        if to_native_text(value).is_err() {
            return Err(BlkidErr::InvalidConversion);
        }
        match outcome {
            Some(Some(d)) => Ok(d),
            Some(None) => Err(BlkidErr::NativeFailure),
            None => Err(BlkidErr::InvalidConversion),
        }
    }

    /// Verify that a cached device still exists.  The native check hands
    /// back the possibly updated device, or null when the device
    /// vanished and its entry was pruned; nothing then comes back.
    pub fn verify(&mut self, dev: BlkidDev, outcome: Option<BlkidDev>) -> (r: Option<BlkidDev>)
        ensures
            *final(self) == *old(self),
            r is Some <==> outcome is Some,
    {
        let _ = dev;
        outcome
    }
}

/// Whether a devname request is valid: a token must split at an equals
/// sign and neither derived piece may hold an embedded null character; a
/// pair must be null-free as given.
pub open spec fn spec_devname_request(q: TagQuery<'_>) -> Option<(Seq<char>, Seq<char>)> {
    match q {
        TagQuery::Token(t) => (match spec_split_token(t@) {
            None => None,
            Some(p) => (if has_nul_char(p.0) || has_nul_char(p.1) {
                None
            } else {
                Some(p)
            }),
        }),
        TagQuery::Pair(n, v) => (if has_nul_char(n@) || has_nul_char(v@) {
            None
        } else {
            Some((n@, v@))
        }),
    }
}

/// Translate the nullable text outcome of the native devname lookup.
fn translate_devname_outcome(outcome: Option<Option<Vec<u8>>>) -> (r: Result<String, BlkidErr>)
    ensures
        (match outcome {
            Some(o) => spec_text_outcome(o, r),
            None => r == Err::<String, BlkidErr>(BlkidErr::InvalidConversion),
        }),
{
    match outcome {
        Some(o) => {
            let bytes = crate::err::translate_ptr(o)?;
            crate::encode::bytes_to_string(bytes)
        },
        None => Err(BlkidErr::InvalidConversion),
    }
}

/// Law (release pairing): once the wrapper no longer owns the native
/// handle, because the put operation released it or it was only ever
/// borrowed, the drop path does not free it; the handle is freed at most
/// once.
pub proof fn lemma_no_double_free(c: BlkidCache)
    requires
        !(c.spec_ownership() is Owned),
    ensures
        !c.spec_must_free(),
{
}

} // verus!
