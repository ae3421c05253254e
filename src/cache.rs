//! A value that is fetched at most once and then kept: cache-once-on-success.
//!
//! The fetch itself is done by the caller. `access` tells it whether the value
//! is there, whether it must fetch it now, or whether another caller already
//! is; `complete` hands the outcome back.
use vstd::prelude::*;

verus! {

/// Where a cached value stands.
pub enum CacheState<T> {
    /// Nothing cached and nobody fetching.
    Empty,
    /// One caller is fetching the value.
    Fetching,
    /// The value, for the rest of the cache's life.
    Ready(T),
}

/// What an `access` tells its caller to do.
#[derive(PartialEq, Eq, Structural, Debug, Clone, Copy)]
pub enum Access {
    /// The value is cached: read it with `get`.
    Hit,
    /// This caller must fetch the value and then call `complete`.
    Fetch,
    /// Another caller is fetching: read the cache again once it is done.
    Wait,
}

/// The answer to a request that needs a cached value.
#[derive(Debug, PartialEq, Eq)]
pub enum Lookup<T> {
    /// The answer.
    Ready(T),
    /// The value is not cached: the caller must fetch it and hand it back.
    Fetch,
    /// Another caller is fetching the value: ask again once it is done.
    Wait,
}

/// One operation on a cache, for stating what a run of them does.
pub enum CacheOp<T> {
    Access,
    Complete(Option<T>),
}

/// The state after an access, and what the access returns.
pub open spec fn access_step<T>(s: CacheState<T>) -> (CacheState<T>, Access) {
    match s {
        CacheState::Empty => (CacheState::Fetching, Access::Fetch),
        CacheState::Fetching => (CacheState::Fetching, Access::Wait),
        CacheState::Ready(v) => (CacheState::Ready(v), Access::Hit),
    }
}

/// The state after a fetch completes with `fetched` (`None` when it failed).
/// Only a pending fetch is completed: a ready value is never replaced.
pub open spec fn complete_step<T>(s: CacheState<T>, fetched: Option<T>) -> CacheState<T> {
    match s {
        CacheState::Fetching => match fetched {
            Some(v) => CacheState::Ready(v),
            None => CacheState::Empty,
        },
        _ => s,
    }
}

/// The state after running `ops` from `s`.
pub open spec fn run<T>(s: CacheState<T>, ops: Seq<CacheOp<T>>) -> CacheState<T>
    decreases ops.len(),
{
    if ops.len() == 0 {
        s
    } else {
        let prev = run(s, ops.drop_last());
        match ops.last() {
            CacheOp::Access => access_step(prev).0,
            CacheOp::Complete(f) => complete_step(prev, f),
        }
    }
}

/// How many of the accesses in `ops`, run from `s`, are told to fetch.
pub open spec fn fetches<T>(s: CacheState<T>, ops: Seq<CacheOp<T>>) -> nat
    decreases ops.len(),
{
    if ops.len() == 0 {
        0
    } else {
        let prev = fetches(s, ops.drop_last());
        match ops.last() {
            CacheOp::Access => if access_step(run(s, ops.drop_last())).1 == Access::Fetch {
                prev + 1
            } else {
                prev
            },
            CacheOp::Complete(_) => prev,
        }
    }
}

/// `n` accesses in a row.
pub open spec fn accesses<T>(n: nat) -> Seq<CacheOp<T>> {
    Seq::new(n, |i: int| CacheOp::Access)
}

/// Once a value is cached, no run of operations fetches again or changes it.
pub proof fn lemma_ready_is_kept<T>(v: T, ops: Seq<CacheOp<T>>)
    ensures
        run(CacheState::Ready(v), ops) == CacheState::Ready(v),
        fetches(CacheState::Ready(v), ops) == 0,
    decreases ops.len(),
{
    if ops.len() > 0 {
        lemma_ready_is_kept(v, ops.drop_last());
    }
}

/// Any number of accesses to an empty cache before the fetch completes tell
/// exactly one caller to fetch; once that fetch succeeds with `v`, every
/// caller reads `v`.
pub proof fn lemma_one_fetch_for_racing_accesses<T>(n: nat, v: T)
    requires
        n >= 1,
    ensures
        run(CacheState::Empty, accesses::<T>(n)) == CacheState::<T>::Fetching,
        fetches(CacheState::Empty, accesses::<T>(n)) == 1,
        run(CacheState::Empty, accesses::<T>(n).push(CacheOp::Complete(Some(v))))
            == CacheState::Ready(v),
        fetches(CacheState::Empty, accesses::<T>(n).push(CacheOp::Complete(Some(v)))) == 1,
    decreases n,
{
    let ops = accesses::<T>(n);
    let before = accesses::<T>((n - 1) as nat);
    assert(ops.drop_last() =~= before);
    assert(ops.last() == CacheOp::<T>::Access);
    if n > 1 {
        lemma_one_fetch_for_racing_accesses::<T>((n - 1) as nat, v);
    } else {
        assert(before =~= Seq::<CacheOp<T>>::empty());
    }
    assert(run(CacheState::Empty, ops) == access_step(run(CacheState::Empty, before)).0);
    assert(fetches(CacheState::Empty, ops) == fetches(CacheState::Empty, before) + if access_step(
        run(CacheState::Empty, before),
    ).1 == Access::Fetch {
        1nat
    } else {
        0nat
    });
    let done = ops.push(CacheOp::Complete(Some(v)));
    assert(done.drop_last() =~= ops);
    assert(fetches(CacheState::Empty, done) == fetches(CacheState::Empty, ops));
}

/// A value fetched at most once.
pub struct OnceCache<T> {
    state: CacheState<T>,
}

impl<T> View for OnceCache<T> {
    type V = CacheState<T>;

    closed spec fn view(&self) -> CacheState<T> {
        self.state
    }
}

impl<T> OnceCache<T> {
    /// An empty cache.
    pub fn new() -> (r: Self)
        ensures
            r@ == CacheState::<T>::Empty,
    {
        OnceCache { state: CacheState::Empty }
    }

    /// Asks for the value. On `Fetch` the caller owns the one fetch in
    /// flight and must report it with `complete`.
    pub fn access(&mut self) -> (r: Access)
        ensures
            (final(self)@, r) == access_step(old(self)@),
    {
        match self.state {
            CacheState::Empty => {
                self.state = CacheState::Fetching;
                Access::Fetch
            },
            CacheState::Fetching => Access::Wait,
            CacheState::Ready(_) => Access::Hit,
        }
    }

    /// Reports the fetch in flight: `Some` caches the value, `None` (a failed
    /// fetch) empties the cache so that a later access fetches again.
    pub fn complete(&mut self, fetched: Option<T>)
        ensures
            final(self)@ == complete_step(old(self)@, fetched),
    {
        if let CacheState::Fetching = self.state {
            self.state = match fetched {
                Some(v) => CacheState::Ready(v),
                None => CacheState::Empty,
            };
        }
    }

    /// The cached value, if there is one.
    pub fn get(&self) -> (r: Option<&T>)
        ensures
            match self@ {
                CacheState::Ready(v) => r == Some(&v),
                _ => r is None,
            },
    {
        match &self.state {
            CacheState::Ready(v) => Some(v),
            _ => None,
        }
    }
}

} // verus!
