//! Values that travel with the notifications produced on the way to them.

use vstd::prelude::*;
use vstd::std_specs::convert::{FromSpec, FromSpecImpl};
use crate::data_types::Notification;

verus! {

/// A value, which may be an error, together with the notifications that were
/// produced while it was computed.
#[derive(Debug)]
pub struct WithNotifications<T> {
    pub value: T,
    pub notifications: Vec<Notification>,
}

impl<T> WithNotifications<T> {
    pub fn new(value: T, notifications: Vec<Notification>) -> (paired: Self)
        ensures
            paired.value == value,
            paired.notifications == notifications,
    {
        Self { value, notifications }
    }

    /// Moves the notifications to the end of `sink` and hands out the bare value.
    pub fn extend(self, sink: &mut Vec<Notification>) -> (value: T)
        ensures
            value == self.value,
            final(sink)@ == old(sink)@ + self.notifications@,
    {
        let mut notifications = self.notifications;
        sink.append(&mut notifications);
        self.value
    }
}

impl<T, E> WithNotifications<Result<T, E>> {
    /// Splits a result that carries notifications into a success or a failure
    /// that carries them, so that they travel with whichever outcome occurred.
    pub fn distribute<F: From<E>>(self) -> (split: Result<
        WithNotifications<T>,
        WithNotifications<F>,
    >)
        ensures
            self.value is Ok <==> split is Ok,
            self.value is Ok ==> split->Ok_0.value == self.value->Ok_0
                && split->Ok_0.notifications == self.notifications,
            self.value is Err ==> split->Err_0.notifications == self.notifications,
            self.value is Err && F::obeys_from_spec() ==> split->Err_0.value == F::from_spec(
                self.value->Err_0,
            ),
    {
        match self.value {
            Ok(x) => Ok(WithNotifications::new(x, self.notifications)),
            Err(e) => Err(WithNotifications::new(F::from(e), self.notifications)),
        }
    }
}

impl<T> From<T> for WithNotifications<T> {
    fn from(value: T) -> (paired: Self)
        ensures
            paired.value == value,
            paired.notifications@ == Seq::<Notification>::empty(),
    {
        Self { value, notifications: Vec::new() }
    }
}

impl<T> FromSpecImpl<T> for WithNotifications<T> {
    open spec fn obeys_from_spec() -> bool {
        false
    }

    open spec fn from_spec(value: T) -> Self {
        arbitrary()
    }
}

/// On success, moves the notifications to the end of `sink` and hands out the
/// bare value. On failure, hands the failure back with its notifications
/// still on it, and leaves `sink` as it was.
pub fn try_extend<T, E>(
    result: Result<WithNotifications<T>, WithNotifications<E>>,
    sink: &mut Vec<Notification>,
) -> (merged: Result<T, WithNotifications<E>>)
    ensures
        result is Ok ==> merged == Ok::<T, WithNotifications<E>>(result->Ok_0.value)
            && final(sink)@ == old(sink)@ + result->Ok_0.notifications@,
        result is Err ==> merged == Err::<T, WithNotifications<E>>(result->Err_0)
            && final(sink)@ == old(sink)@,
{
    match result {
        Ok(x) => Ok(x.extend(sink)),
        Err(e) => Err(e),
    }
}

/// The notifications that a result carries, whichever way it went.
pub open spec fn carried<T, E>(
    result: Result<WithNotifications<T>, WithNotifications<E>>,
) -> Seq<Notification> {
    match result {
        Ok(x) => x.notifications@,
        Err(e) => e.notifications@,
    }
}

/// The result without its notifications.
pub open spec fn bare<T, E>(result: Result<WithNotifications<T>, WithNotifications<E>>) -> Result<
    T,
    E,
> {
    match result {
        Ok(x) => Ok(x.value),
        Err(e) => Err(e.value),
    }
}

/// Moves the notifications to the end of `sink` whether the result is a
/// success or a failure, and hands out the bare result.
pub fn factor<T, E>(
    result: Result<WithNotifications<T>, WithNotifications<E>>,
    sink: &mut Vec<Notification>,
) -> (merged: Result<T, E>)
    ensures
        merged == bare(result),
        final(sink)@ == old(sink)@ + carried(result),
{
    match result {
        Ok(x) => Ok(x.extend(sink)),
        Err(e) => Err(e.extend(sink)),
    }
}

} // verus!
