//! Builder for configuring a NotificationService, and the id counter it starts from.
use vstd::prelude::*;

verus! {

/// Builder for configuring and creating a NotificationService instance.
///
/// Allows customization of popup duration, do-not-disturb mode, and
/// automatic removal of expired notifications.
#[derive(Debug)]
pub struct NotificationServiceBuilder {
    popup_duration: u32,
    dnd: bool,
    remove_expired: bool,
    register_wayle_daemon: bool,
}

impl NotificationServiceBuilder {
    /// Popup display time in milliseconds.
    pub closed spec fn popup_duration_spec(&self) -> u32 {
        self.popup_duration
    }

    /// Do-not-disturb mode.
    pub closed spec fn dnd_spec(&self) -> bool {
        self.dnd
    }

    /// Expired notifications are removed.
    pub closed spec fn remove_expired_spec(&self) -> bool {
        self.remove_expired
    }

    /// The Wayle D-Bus daemon is to be registered.
    pub closed spec fn with_daemon_spec(&self) -> bool {
        self.register_wayle_daemon
    }

    /// Creates a builder with the defaults: popups for 5000 ms, do-not-disturb off,
    /// expired notifications removed, no Wayle daemon.
    pub fn new() -> (res: Self)
        ensures
            res.popup_duration_spec() == 5000,
            !res.dnd_spec(),
            res.remove_expired_spec(),
            !res.with_daemon_spec(),
    {
        NotificationServiceBuilder {
            popup_duration: 5000,
            dnd: false,
            remove_expired: true,
            register_wayle_daemon: false,
        }
    }

    /// Sets the duration in milliseconds for how long popups should be displayed.
    pub fn popup_duration(self, duration: u32) -> (res: Self)
        ensures
            res.popup_duration_spec() == duration,
            res.dnd_spec() == self.dnd_spec(),
            res.remove_expired_spec() == self.remove_expired_spec(),
            res.with_daemon_spec() == self.with_daemon_spec(),
    {
        NotificationServiceBuilder { popup_duration: duration, ..self }
    }

    /// Configures the Do Not Disturb mode: when enabled, new notifications do not
    /// appear as popups but are still added to the notification list.
    pub fn dnd(self, dnd: bool) -> (res: Self)
        ensures
            res.dnd_spec() == dnd,
            res.popup_duration_spec() == self.popup_duration_spec(),
            res.remove_expired_spec() == self.remove_expired_spec(),
            res.with_daemon_spec() == self.with_daemon_spec(),
    {
        NotificationServiceBuilder { dnd, ..self }
    }

    /// Sets whether to automatically remove expired notifications.
    pub fn remove_expired(self, remove: bool) -> (res: Self)
        ensures
            res.remove_expired_spec() == remove,
            res.popup_duration_spec() == self.popup_duration_spec(),
            res.dnd_spec() == self.dnd_spec(),
            res.with_daemon_spec() == self.with_daemon_spec(),
    {
        NotificationServiceBuilder { remove_expired: remove, ..self }
    }

    /// Enables the Wayle D-Bus daemon for CLI control.
    pub fn with_daemon(self) -> (res: Self)
        ensures
            res.with_daemon_spec(),
            res.popup_duration_spec() == self.popup_duration_spec(),
            res.dnd_spec() == self.dnd_spec(),
            res.remove_expired_spec() == self.remove_expired_spec(),
    {
        NotificationServiceBuilder { register_wayle_daemon: true, ..self }
    }

    /// The configured popup duration.
    pub fn popup_duration_ms(&self) -> (res: u32)
        ensures
            res == self.popup_duration_spec(),
    {
        self.popup_duration
    }

    /// The configured do-not-disturb mode.
    pub fn is_dnd(&self) -> (res: bool)
        ensures
            res == self.dnd_spec(),
    {
        self.dnd
    }

    /// Whether expired notifications are removed.
    pub fn removes_expired(&self) -> (res: bool)
        ensures
            res == self.remove_expired_spec(),
    {
        self.remove_expired
    }

    /// Whether the Wayle daemon is to be registered.
    pub fn registers_wayle_daemon(&self) -> (res: bool)
        ensures
            res == self.with_daemon_spec(),
    {
        self.register_wayle_daemon
    }
}

impl Default for NotificationServiceBuilder {
    fn default() -> (res: Self)
        ensures
            res.popup_duration_spec() == 5000,
            !res.dnd_spec(),
            res.remove_expired_spec(),
            !res.with_daemon_spec(),
    {
        Self::new()
    }
}

/// The largest of the ids, or 0 for none.
pub open spec fn max_id(ids: Seq<u32>) -> u32
    decreases ids.len(),
{
    if ids.len() == 0 {
        0
    } else {
        let rest = max_id(ids.drop_last());
        if ids.last() > rest {
            ids.last()
        } else {
            rest
        }
    }
}

/// `max_id` is an upper bound that is 0 or one of the ids.
pub proof fn lemma_max_id(ids: Seq<u32>)
    ensures
        forall|i: int| 0 <= i < ids.len() ==> ids[i] <= max_id(ids),
        max_id(ids) == 0 || ids.contains(max_id(ids)),
    decreases ids.len(),
{
    if ids.len() > 0 {
        lemma_max_id(ids.drop_last());
        let rest = ids.drop_last();
        assert forall|i: int| 0 <= i < ids.len() implies ids[i] <= max_id(ids) by {
            if i < ids.len() - 1 {
                assert(ids[i] == rest[i]);
            }
        }
        if max_id(ids) != 0 && max_id(ids) != ids.last() {
            let k = choose|k: int| 0 <= k < rest.len() && rest[k] == max_id(rest);
            assert(ids[k] == rest[k]);
        }
    }
}

/// The first id the daemon hands out after restoring notifications with these ids: one
/// more than the largest. (No stored id may be `u32::MAX`: the successor overflows.)
pub fn initial_counter(stored_ids: &Vec<u32>) -> (res: u32)
    requires
        forall|i: int| 0 <= i < stored_ids@.len() ==> stored_ids@[i] < u32::MAX,
    ensures
        res == max_id(stored_ids@) + 1,
        forall|i: int| 0 <= i < stored_ids@.len() ==> stored_ids@[i] < res,
{
    let mut max: u32 = 0;
    let mut i: usize = 0;
    while i < stored_ids.len()
        invariant
            i <= stored_ids@.len(),
            max == max_id(stored_ids@.take(i as int)),
            forall|k: int| 0 <= k < stored_ids@.len() ==> stored_ids@[k] < u32::MAX,
        decreases stored_ids.len() - i,
    {
        assert(stored_ids@.take(i + 1).drop_last() =~= stored_ids@.take(i as int));
        if stored_ids[i] > max {
            max = stored_ids[i];
        }
        i = i + 1;
    }
    assert(stored_ids@.take(stored_ids@.len() as int) =~= stored_ids@);
    proof {
        lemma_max_id(stored_ids@);
    }
    max + 1
}

} // verus!
