//! The generic configuration-store pattern shared by every driver: one
//! mutable cell holding the driver's active record, four total operations
//! on it, and the laws those operations obey.

use vstd::prelude::*;

verus! {

/// A driver configuration record: a plain copyable value with a
/// compiled-in default.
pub trait ConfigRecord: Sized + Copy {
    /// The compiled-in default record, as a mathematical value.
    spec fn default_spec() -> Self;

    /// Builds the compiled-in default record.
    fn default_record() -> (r: Self)
        ensures
            r == Self::default_spec(),
    ;
}

/// What a read writes into a caller-supplied destination: the current
/// record when the caller gave a destination, nothing when the destination
/// is absent.
pub open spec fn written_record<T>(current: T, dst: Option<T>) -> Option<T> {
    match dst {
        Some(_) => Some(current),
        None => None,
    }
}

/// What the store holds after a write: the source record when the caller
/// gave one, the old record when the source is absent.
pub open spec fn updated_record<T>(current: T, src: Option<T>) -> T {
    match src {
        Some(v) => v,
        None => current,
    }
}

/// One mutable cell holding the active configuration record of one driver.
///
/// The cell performs no synchronization of its own: a caller that shares
/// it across execution contexts must establish exclusive access around
/// each operation (for example by suspending interrupt delivery).
pub struct ConfigStore<T> {
    record: T,
}

impl<T> View for ConfigStore<T> {
    type V = T;

    closed spec fn view(&self) -> T {
        self.record
    }
}

impl<T: ConfigRecord> ConfigStore<T> {
    /// A fresh store holding the compiled-in default record.
    pub fn new() -> (s: Self)
        ensures
            s@ == T::default_spec(),
    {
        ConfigStore { record: T::default_record() }
    }

    /// Copies the current record into `dst`; a silent no-op when `dst` is
    /// absent.  A pure read: the store is never mutated.
    pub fn get(&self, dst: &mut Option<T>)
        ensures
            *final(dst) == written_record(self@, *old(dst)),
    {
        if dst.is_some() {
            *dst = Some(self.record);
        }
    }

    /// Replaces the whole record with the one in `src`; a silent no-op when
    /// `src` is absent.  No field is validated: any record value is
    /// accepted and stored bit for bit.
    pub fn set(&mut self, src: Option<T>)
        ensures
            final(self)@ == updated_record(old(self)@, src),
    {
        match src {
            Some(v) => {
                self.record = v;
            }
            None => {}
        }
    }

    /// Unconditionally overwrites the record with the compiled-in default.
    pub fn reset(&mut self)
        ensures
            final(self)@ == T::default_spec(),
    {
        self.record = T::default_record();
    }

    /// Copies the compiled-in default record into `dst`; a silent no-op
    /// when `dst` is absent.  Takes no store at all, so it can never
    /// observe or disturb any driver's current record, and needs no
    /// exclusive access.
    pub fn get_default(dst: &mut Option<T>)
        ensures
            *final(dst) == written_record(T::default_spec(), *old(dst)),
    {
        if dst.is_some() {
            *dst = Some(T::default_record());
        }
    }
}

/// Default idempotence: a store just reset holds the compiled-in default,
/// so a get out of it reports exactly what get_default reports, whatever
/// destination the caller supplies.
pub proof fn lemma_reset_matches_default<T: ConfigRecord>(s: ConfigStore<T>, dst: Option<T>)
    requires
        s@ == T::default_spec(),
    ensures
        written_record(s@, dst) == written_record(T::default_spec(), dst),
{
}

/// The store record after some number of get_default calls.  get_default
/// takes no store, so each call leaves every record exactly as it was.
pub open spec fn record_after_get_defaults<T>(current: T, calls: nat) -> T
    decreases calls,
{
    if calls == 0 {
        current
    } else {
        record_after_get_defaults(current, (calls - 1) as nat)
    }
}

/// Get/default independence: however many times get_default ran, a later
/// get reports the same record it would have reported before any of them.
pub proof fn lemma_get_default_independent<T>(current: T, calls: nat, dst: Option<T>)
    ensures
        written_record(record_after_get_defaults(current, calls), dst)
            == written_record(current, dst),
    decreases calls,
{
    if calls > 0 {
        lemma_get_default_independent::<T>(current, (calls - 1) as nat, dst);
    }
}

/// Round trip: a set of record `v` followed by a get into a present
/// destination yields exactly `v`, whatever the store held before and
/// whatever bit patterns `v` carries.
pub proof fn lemma_set_then_get_round_trip<T>(current: T, v: T, dst: Option<T>)
    requires
        dst is Some,
    ensures
        written_record(updated_record(current, Some(v)), dst) == Some(v),
{
}

/// Null safety: a set with an absent source keeps the record as it was,
/// and a get or get_default with an absent destination writes nothing.
pub proof fn lemma_absent_arguments_are_no_ops<T: ConfigRecord>(current: T)
    ensures
        updated_record::<T>(current, None) == current,
        written_record::<T>(current, None) == None::<T>,
        written_record::<T>(T::default_spec(), None) == None::<T>,
{
}

} // verus!
