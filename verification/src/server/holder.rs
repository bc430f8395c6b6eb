//! A lazily loaded resource that is unloaded when it has been idle for long
//! enough.
//!
//! Times are nanoseconds since some fixed instant, durations are nanoseconds.

use vstd::prelude::*;

verus! {

/// The shortest pause between two looks at an idle resource.
pub const MIN_TICK: u128 = 1_000_000_000;

/// The longest pause between two looks at an idle resource.
pub const MAX_TICK: u128 = 10_000_000_000;

/// How often an idle resource is looked at: never if it is to stay for ever.
pub open spec fn tick_of(ttl: u128) -> Option<u128> {
    if ttl == 0 {
        None
    } else if ttl < MIN_TICK {
        Some(MIN_TICK)
    } else if ttl > MAX_TICK {
        Some(MAX_TICK)
    } else {
        Some(ttl)
    }
}

/// How often an idle resource is looked at: never if it is to stay for ever.
pub fn eviction_tick(ttl: u128) -> (tick: Option<u128>)
    ensures
        tick == tick_of(ttl),
{
    if ttl == 0 {
        None
    } else if ttl < MIN_TICK {
        Some(MIN_TICK)
    } else if ttl > MAX_TICK {
        Some(MAX_TICK)
    } else {
        Some(ttl)
    }
}

/// Whether a resource that was last used at `last_used` has been idle for
/// long enough. One that is to stay for ever never has.
pub open spec fn is_due(ttl: u128, last_used: u128, now: u128) -> bool {
    ttl != 0 && now - last_used >= ttl
}

/// Whether a resource that was last used at `last_used` has been idle for
/// long enough.
pub fn due(ttl: u128, last_used: u128, now: u128) -> (r: bool)
    ensures
        r == is_due(ttl, last_used, now),
{
    ttl != 0 && now >= last_used && now - last_used >= ttl
}

/// A loaded resource.
#[derive(Debug)]
pub struct Loaded<T> {
    pub value: T,
    pub last_used: u128,
}

/// Holds a resource from its first use until it has been idle for `ttl`.
#[derive(Debug)]
pub struct ResourceHolder<T> {
    pub ttl: u128,
    pub loaded: Option<Loaded<T>>,
}

impl<T> ResourceHolder<T> {
    /// A holder that holds nothing yet.
    pub fn new(ttl: u128) -> (holder: Self)
        ensures
            holder.ttl == ttl,
            holder.loaded is None,
    {
        ResourceHolder { ttl, loaded: None }
    }

    /// The resource, if it is loaded. Asking for it is a use.
    pub fn get(&mut self, now: u128) -> (r: Option<&T>)
        ensures
            final(self).ttl == old(self).ttl,
            match old(self).loaded {
                None => r is None && final(self).loaded is None,
                Some(l) => r == Some(&l.value) && final(self).loaded == Some(
                    (Loaded { value: l.value, last_used: now }),
                ),
            },
    {
        match self.loaded.take() {
            None => None,
            Some(l) => {
                self.loaded = Some(Loaded { value: l.value, last_used: now });
                self.held()
            },
        }
    }

    fn held(&self) -> (r: Option<&T>)
        ensures
            match self.loaded {
                None => r is None,
                Some(l) => r == Some(&l.value),
            },
    {
        match &self.loaded {
            None => None,
            Some(l) => Some(&l.value),
        }
    }

    /// Takes in a resource that has just been loaded. If another one came in
    /// meanwhile, that one stays. Either way the resource that is held is used
    /// now and handed out.
    pub fn install(&mut self, value: T, now: u128) -> (r: Option<&T>)
        ensures
            final(self).ttl == old(self).ttl,
            final(self).loaded == Some(
                (Loaded {
                    value: match old(self).loaded {
                        None => value,
                        Some(l) => l.value,
                    },
                    last_used: now,
                }),
            ),
            r == Some(&final(self).loaded->0.value),
    {
        let kept = match self.loaded.take() {
            None => value,
            Some(l) => l.value,
        };
        self.loaded = Some(Loaded { value: kept, last_used: now });
        self.held()
    }

    /// Unloads the resource if it is due and nobody else holds it. `holders`
    /// counts those who do, this holder included.
    pub fn evict(&mut self, now: u128, holders: usize) -> (r: Option<T>)
        ensures
            final(self).ttl == old(self).ttl,
            match old(self).loaded {
                Some(l) => if is_due(old(self).ttl, l.last_used, now) && holders == 1 {
                    r == Some(l.value) && final(self).loaded is None
                } else {
                    r is None && final(self).loaded == old(self).loaded
                },
                None => r is None && final(self).loaded is None,
            },
    {
        match self.loaded.take() {
            None => None,
            Some(l) => {
                if holders == 1 && due(self.ttl, l.last_used, now) {
                    Some(l.value)
                } else {
                    self.loaded = Some(l);
                    None
                }
            },
        }
    }
}

/// A use resets the timer: the resource is not due before `ttl` has passed
/// since, and due from then on until it is used again. With no time to live it
/// is never due.
pub proof fn use_resets_timer(ttl: u128, used: u128, now: u128)
    ensures
        now < used + ttl ==> !is_due(ttl, used, now),
        ttl > 0 && now >= used + ttl ==> is_due(ttl, used, now),
        ttl == 0 ==> !is_due(ttl, used, now),
{
}

/// The pause between two looks at a resource is between one and ten seconds
/// long, and no longer than the time to live unless that is under a second.
pub proof fn ticks_are_bounded(ttl: u128)
    ensures
        match tick_of(ttl) {
            None => ttl == 0,
            Some(tick) => ttl > 0 && MIN_TICK <= tick <= MAX_TICK && (tick <= ttl || tick
                == MIN_TICK),
        },
{
}

/// A resource is looked at every `ttl`, but no more often than once a second
/// and no more seldom than every ten.
pub proof fn ticks_follow_the_time_to_live(ttl: u128)
    ensures
        ttl == 0 <==> tick_of(ttl) is None,
        0 < ttl <= 1_000_000_000 ==> tick_of(ttl) == Some(1_000_000_000u128),
        1_000_000_000 <= ttl <= 10_000_000_000 ==> tick_of(ttl) == Some(ttl),
        ttl >= 10_000_000_000 ==> tick_of(ttl) == Some(10_000_000_000u128),
{
}

/// A resource that was used at some time is unloaded later if and only if it
/// has been idle for the time to live since, there is such a time, and nobody
/// else holds it; then it is handed back, and else it stays.
pub proof fn idle_resources_go<T>(
    used: &mut ResourceHolder<T>,
    looked_at: &mut ResourceHolder<T>,
    first: u128,
    later: u128,
    holders: usize,
    got: Option<&T>,
    gone: Option<T>,
)
    requires
        call_ensures(ResourceHolder::<T>::get, (used, first), got),
        *final(used) == *old(looked_at),
        call_ensures(ResourceHolder::<T>::evict, (looked_at, later, holders), gone),
    ensures
        got is Some <==> old(used).loaded is Some,
        gone is Some <==> got is Some && holders == 1 && old(used).ttl > 0 && later >= first
            + old(used).ttl,
        gone matches Some(value) ==> got == Some(&value) && final(looked_at).loaded is None,
        gone is None ==> final(looked_at).loaded == final(used).loaded,
        got matches Some(value) ==> *value == old(used).loaded->0.value,
        final(looked_at).ttl == old(used).ttl,
{
}

/// A resource that was taken in is handed out until it is unloaded, and one
/// that comes in beside it is not.
pub proof fn first_resource_stays<T>(
    empty: &mut ResourceHolder<T>,
    full: &mut ResourceHolder<T>,
    asked: &mut ResourceHolder<T>,
    value: T,
    other: T,
    now: u128,
    later: u128,
    last: u128,
    a: Option<&T>,
    b: Option<&T>,
    c: Option<&T>,
)
    requires
        old(empty).loaded is None,
        call_ensures(ResourceHolder::<T>::install, (empty, value, now), a),
        *final(empty) == *old(full),
        call_ensures(ResourceHolder::<T>::install, (full, other, later), b),
        *final(full) == *old(asked),
        call_ensures(ResourceHolder::<T>::get, (asked, last), c),
    ensures
        a == Some(&value),
        b == Some(&value),
        c == Some(&value),
        final(empty).loaded matches Some(l) && l.last_used == now,
        final(full).loaded matches Some(l) && l.last_used == later,
        final(asked).loaded matches Some(l) && l.last_used == last && l.value == value,
        final(asked).ttl == old(empty).ttl,
{
}

} // verus!
