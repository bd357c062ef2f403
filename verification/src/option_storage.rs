//! The cached per-user option store. The in-memory cache mirrors a durable
//! backing table: it is seeded once from the loaded rows, reads never touch
//! the backing store, and a write updates the cache only after the caller's
//! durable upsert has completed successfully — the cache never shows a value
//! that was not durably persisted.
//!
//! The store itself does not serialize writers. Callers guard it with their
//! own lock; two concurrent writes for the same user race, and the cache
//! follows whichever completed durable write is applied last. This is a
//! known, accepted race: a single user reconfiguring concurrently is rare,
//! and either outcome is a value that was durably persisted.

use std::collections::HashMap;

use vstd::prelude::*;

use crate::tts::Options;

verus! {

broadcast use vstd::std_specs::hash::group_hash_axioms;

/// A failure of the backing store, carried through unchanged.
#[derive(Clone, Debug, PartialEq, Eq)]
pub struct StorageError {
    pub message: String,
}

/// Maps each user identifier to its current options, backed by an in-memory
/// mirror of the durable table.
pub struct OptionStorage {
    cache: HashMap<u64, Options>,
}

impl View for OptionStorage {
    type V = Map<u64, Options>;

    closed spec fn view(&self) -> Map<u64, Options> {
        self.cache@
    }
}

/// The map a row list seeds: rows applied in order, a later row for the same
/// user replacing an earlier one.
pub open spec fn rows_map(rows: Seq<(u64, Options)>) -> Map<u64, Options>
    decreases rows.len(),
{
    if rows.len() == 0 {
        Map::<u64, Options>::empty()
    } else {
        rows_map(rows.drop_last()).insert(rows.last().0, rows.last().1)
    }
}

impl OptionStorage {
    /// What a read returns: the cached value, or the process-wide default
    /// for a user that was never set.
    pub open spec fn spec_get(self, user_id: u64) -> Options {
        if self@.contains_key(user_id) {
            self@[user_id]
        } else {
            Options::default_spec()
        }
    }

    /// An empty store.
    pub fn new() -> (s: Self)
        ensures
            s@ == Map::<u64, Options>::empty(),
    {
        OptionStorage { cache: HashMap::new() }
    }

    /// The pure half of opening the store: seeds the cache eagerly from
    /// every row the caller loaded from the backing table.
    pub fn from_rows(rows: &Vec<(u64, Options)>) -> (s: Self)
        ensures
            s@ == rows_map(rows@),
    {
        let mut cache: HashMap<u64, Options> = HashMap::new();
        let mut i: usize = 0;
        while i < rows.len()
            invariant
                i <= rows@.len(),
                cache@ == rows_map(rows@.take(i as int)),
            decreases rows@.len() - i,
        {
            let (user_id, options): (u64, Options) = rows[i];
            cache.insert(user_id, options);
            proof {
                assert(rows@.take(i + 1).drop_last() =~= rows@.take(i as int));
                assert(rows@.take(i + 1).last() == rows@[i as int]);
            }
            i = i + 1;
        }
        proof {
            assert(rows@.take(rows@.len() as int) =~= rows@);
        }
        OptionStorage { cache }
    }

    /// Reads the cached value for the user, or the process-wide default if
    /// absent. Never fails and never touches the backing store.
    pub fn get(&self, user_id: u64) -> (r: Options)
        ensures
            r == self.spec_get(user_id),
    {
        match self.cache.get(&user_id) {
            Some(o) => *o,
            None => Options::default(),
        }
    }

    /// Applies the outcome of the durable upsert the caller performed for
    /// `(user_id, options)`. Only a completed, successful write updates the
    /// cache; a failed write leaves the cache at its prior value and
    /// surfaces the error unchanged.
    pub fn set(
        &mut self,
        user_id: u64,
        options: Options,
        write_result: Result<(), StorageError>,
    ) -> (r: Result<(), StorageError>)
        ensures
            write_result is Ok ==> final(self)@ == old(self)@.insert(user_id, options) && r is Ok,
            write_result is Err ==> final(self)@ == old(self)@ && r == write_result,
    {
        match write_result {
            Ok(()) => {
                self.cache.insert(user_id, options);
                Ok(())
            },
            Err(e) => Err(e),
        }
    }
}

/// A user that was never set reads as the process-wide default options.
pub proof fn lemma_get_unset_default(s: OptionStorage, user_id: u64)
    requires
        !s@.contains_key(user_id),
    ensures
        s.spec_get(user_id) == Options::default_spec(),
{
}

/// After a successful write, a read of that user returns exactly the
/// written options, and no other user's read changes.
pub proof fn lemma_set_then_get(
    pre: OptionStorage,
    post: OptionStorage,
    user_id: u64,
    options: Options,
)
    requires
        post@ == pre@.insert(user_id, options),
    ensures
        post.spec_get(user_id) == options,
        forall|u: u64| u != user_id ==> post.spec_get(u) == pre.spec_get(u),
{
}

/// After a failed write, every read returns what it returned before.
pub proof fn lemma_failed_set_preserves_reads(pre: OptionStorage, post: OptionStorage)
    requires
        post@ == pre@,
    ensures
        forall|u: u64| post.spec_get(u) == pre.spec_get(u),
{
}

} // verus!
