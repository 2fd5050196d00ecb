//! Scheduling of saves: changes are collected for a moment and saved together,
//! one save at a time.

use crate::config::Config;
use crate::main_page::ErrorText;
use vstd::prelude::*;

verus! {

/// How long changes are collected before they are saved, in milliseconds.
pub const DEBOUNCE: u64 = 750;

/// A save to be run.
#[derive(Clone)]
pub struct PendingSave {
    /// The configuration as it was when the save was decided.
    pub snapshot: Config,
    pub profile: String,
}

/// Decides when the configuration is saved.
#[derive(Clone, Debug)]
pub struct SaveScheduler {
    pub profile: String,
    /// There are changes that no save has taken up.
    pub dirty: bool,
    /// A save is running.
    pub in_flight: bool,
    /// When the changes that await a save began to be collected, in
    /// milliseconds.
    pub armed: Option<u64>,
}

/// Why no save is started.
#[derive(Clone, Copy, Debug, PartialEq, Eq, Structural)]
pub enum SkipReason {
    /// There is nothing to save.
    NotDirty,
    /// A save is running.
    InFlight,
}

impl SaveScheduler {
    /// The moment at which changes are saved.
    pub open spec fn deadline(self) -> Option<int> {
        match self.armed {
            Some(t) => Some(t + DEBOUNCE),
            None => None,
        }
    }

    /// The scheduler after a change: the first change of several sets the
    /// moment, later ones do not put it off.
    pub open spec fn marked(self, now: u64) -> SaveScheduler {
        SaveScheduler {
            dirty: true,
            armed: if self.armed is None {
                Some(now)
            } else {
                self.armed
            },
            ..self
        }
    }

    /// The scheduler after a save has ended.
    pub open spec fn ended(self, succeeded: bool, now: u64) -> SaveScheduler {
        let dirty = self.dirty || !succeeded;
        SaveScheduler {
            in_flight: false,
            dirty,
            armed: if dirty && self.armed is None {
                Some(now)
            } else {
                self.armed
            },
            ..self
        }
    }

    /// The scheduler after an attempt that started no save, for one is running
    /// or nothing changed.
    pub open spec fn skipped(self) -> SaveScheduler {
        SaveScheduler { armed: None, ..self }
    }

    /// The scheduler after a save was started: it takes up every change.
    pub open spec fn started(self) -> SaveScheduler {
        SaveScheduler { dirty: false, in_flight: true, armed: None, ..self }
    }

    /// The scheduler after an attempt that found no snapshot to save.
    pub open spec fn put_off(self, now: u64) -> SaveScheduler {
        SaveScheduler { armed: Some(now), ..self }
    }

    /// The scheduler after the current configuration was saved outside its
    /// turn, or could not be.
    pub open spec fn settled(self, succeeded: bool) -> SaveScheduler {
        if succeeded {
            SaveScheduler { dirty: false, armed: None, ..self }
        } else {
            self
        }
    }

    /// A scheduler with nothing to save.
    pub fn new(profile: String) -> (r: SaveScheduler)
        ensures
            r == (SaveScheduler { profile, dirty: false, in_flight: false, armed: None }),
    {
        SaveScheduler { profile, dirty: false, in_flight: false, armed: None }
    }

    /// Notes a change at the moment `now`.
    pub fn mark_dirty(&mut self, now: u64)
        ensures
            *final(self) == old(self).marked(now),
    {
        self.dirty = true;
        if self.armed.is_none() {
            self.armed = Some(now);
        }
    }

    /// Whether a save is due or running.
    pub fn is_pending(&self) -> (r: bool)
        ensures
            r == (self.dirty || self.in_flight || self.armed is Some),
    {
        self.dirty || self.in_flight || self.armed.is_some()
    }

    /// Whether a save is running.
    pub fn in_flight(&self) -> (r: bool)
        ensures
            r == self.in_flight,
    {
        self.in_flight
    }

    /// How long to wait from `now` until changes are saved; `None` while there
    /// is nothing to wait for.
    pub fn wait_deadline(&self, now: u64) -> (r: Option<u64>)
        ensures
            match r {
                Some(ms) => self.deadline() is Some && ms as int == (if self.deadline()->0 > now {
                    if self.armed->0 > now {
                        DEBOUNCE as int
                    } else {
                        self.deadline()->0 - now
                    }
                } else {
                    0
                }),
                None => self.deadline() is None,
            },
    {
        match self.armed {
            None => None,
            Some(t) => {
                if t > now {
                    Some(DEBOUNCE)
                } else if now - t >= DEBOUNCE {
                    Some(0)
                } else {
                    Some(DEBOUNCE - (now - t))
                }
            },
        }
    }

    /// Starts a save of what `snapshot_fn` returns, unless one is running or
    /// there is nothing to save. When there is no snapshot to be had, the
    /// changes stay and await the next attempt.
    pub fn take_for_save<F: FnOnce() -> Result<Config, ErrorText>>(
        &mut self,
        now: u64,
        snapshot_fn: F,
    ) -> (r: Result<Result<PendingSave, ErrorText>, SkipReason>)
        requires
            old(self).dirty && !old(self).in_flight ==> snapshot_fn.requires(()),
        ensures
            old(self).in_flight <==> r == Err::<Result<PendingSave, ErrorText>, SkipReason>(
                SkipReason::InFlight,
            ),
            !old(self).in_flight && !old(self).dirty <==> r == Err::<
                Result<PendingSave, ErrorText>,
                SkipReason,
            >(SkipReason::NotDirty),
            match r {
                Err(_) => *final(self) == old(self).skipped(),
                Ok(Ok(pending)) => {
                    &&& snapshot_fn.ensures((), Ok(pending.snapshot))
                    &&& pending.profile == old(self).profile
                    &&& *final(self) == old(self).started()
                },
                Ok(Err(e)) => {
                    &&& snapshot_fn.ensures((), Err(e))
                    &&& *final(self) == old(self).put_off(now)
                },
            },
    {
        if self.in_flight {
            self.armed = None;
            return Err(SkipReason::InFlight);
        }
        if !self.dirty {
            self.armed = None;
            return Err(SkipReason::NotDirty);
        }
        match snapshot_fn() {
            Ok(snapshot) => {
                self.dirty = false;
                self.armed = None;
                self.in_flight = true;
                Ok(Ok(PendingSave { snapshot, profile: self.profile.clone() }))
            },
            Err(e) => {
                self.armed = Some(now);
                Ok(Err(e))
            },
        }
    }

    /// Notes that the running save has ended. What could not be saved, and what
    /// changed meanwhile, awaits another save.
    pub fn finish(&mut self, succeeded: bool, now: u64)
        ensures
            *final(self) == old(self).ended(succeeded, now),
    {
        self.in_flight = false;
        if !succeeded {
            self.dirty = true;
        }
        if self.dirty && self.armed.is_none() {
            self.armed = Some(now);
        }
    }

    /// Notes how a save of the current configuration, made at once, has ended:
    /// if well, nothing is left to save.
    pub fn flushed(&mut self, succeeded: bool)
        ensures
            *final(self) == old(self).settled(succeeded),
    {
        if succeeded {
            self.clear_after_external_save();
        }
    }

    /// A save of this configuration, to be run at once.
    pub fn snapshot_now(&self, snapshot: Config) -> (r: PendingSave)
        ensures
            r.snapshot == snapshot,
            r.profile == self.profile,
    {
        PendingSave { snapshot, profile: self.profile.clone() }
    }

    /// Whether something is left to save.
    pub fn needs_flush(&self) -> (r: bool)
        ensures
            r == (self.dirty || self.in_flight),
    {
        self.dirty || self.in_flight
    }

    /// Notes that the current configuration was saved by other means.
    pub fn clear_after_external_save(&mut self)
        ensures
            *final(self) == old(self).settled(true),
    {
        self.dirty = false;
        self.armed = None;
    }
}

/// However many changes follow the first one, the moment of saving stays.
pub proof fn law_burst_shares_deadline(s: SaveScheduler, first: u64, later: u64)
    ensures
        s.marked(first).marked(later) == s.marked(first),
{
}

/// Changes that no save has taken up await one: its moment is set, or one is
/// running, and its end sets the moment of the next.
pub open spec fn accounted(s: SaveScheduler) -> bool {
    s.dirty ==> s.armed is Some || s.in_flight
}

/// A change is accounted for after every operation: when it is made, when a save
/// is attempted, whether it is skipped, put off or started, when a save ends,
/// well or not, and after a save outside its turn. Only a save that takes the
/// changes up, or one that succeeded outside its turn, leaves none of them; a
/// save that fails brings them back.
pub proof fn law_no_change_is_dropped(s: SaveScheduler, now: u64, succeeded: bool)
    requires
        accounted(s),
    ensures
        s.marked(now).dirty && accounted(s.marked(now)),
        accounted(s.ended(succeeded, now)),
        !succeeded ==> s.ended(succeeded, now).dirty && s.ended(succeeded, now).armed is Some,
        s.dirty ==> s.ended(succeeded, now).dirty,
        s.in_flight || !s.dirty ==> accounted(s.skipped()),
        s.skipped().dirty == s.dirty && s.skipped().in_flight == s.in_flight,
        accounted(s.started()) && s.started().in_flight,
        s.started().ended(false, now).dirty && s.started().ended(false, now).armed is Some,
        accounted(s.put_off(now)) && s.put_off(now).dirty == s.dirty,
        accounted(s.settled(succeeded)),
        !succeeded ==> s.settled(succeeded) == s,
{
}

/// A change that finds nothing waiting is saved when the pause after it is over,
/// neither sooner nor later, however often one asks in between.
pub proof fn law_change_is_saved_after_the_pause(
    s: &mut SaveScheduler,
    at: u64,
    now: u64,
    wait: Option<u64>,
)
    requires
        call_ensures(SaveScheduler::mark_dirty, (s, at), ()),
        call_ensures(SaveScheduler::wait_deadline, (&*final(s), now), wait),
        old(s).armed is None,
        at <= now,
    ensures
        wait is Some,
        now < at + DEBOUNCE ==> now + wait->0 == at + DEBOUNCE,
        now >= at + DEBOUNCE ==> wait->0 == 0,
        final(s).dirty,
        final(s).in_flight == old(s).in_flight,
        final(s).profile == old(s).profile,
{
}

/// A save that failed leaves its changes to be saved again; one that went well
/// leaves only what changed while it ran.
pub proof fn law_failed_save_is_made_again(s: &mut SaveScheduler, succeeded: bool, now: u64)
    requires
        call_ensures(SaveScheduler::finish, (s, succeeded, now), ()),
    ensures
        !final(s).in_flight,
        !succeeded ==> final(s).dirty && final(s).armed is Some,
        succeeded ==> final(s).dirty == old(s).dirty,
        old(s).dirty ==> final(s).dirty && final(s).armed is Some,
        final(s).profile == old(s).profile,
{
}

/// A configuration is written to the profile that the scheduler was made for.
pub proof fn law_saves_go_to_their_profile(
    profile: String,
    s: SaveScheduler,
    snapshot: Config,
    r: PendingSave,
    pending: bool,
)
    requires
        call_ensures(SaveScheduler::new, (profile,), s),
        call_ensures(SaveScheduler::snapshot_now, (&s, snapshot), r),
        call_ensures(SaveScheduler::is_pending, (&s,), pending),
    ensures
        r.profile == profile,
        r.snapshot == snapshot,
        !pending,
{
}

} // verus!
