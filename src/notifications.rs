use vstd::prelude::*;

use crate::keyed::{unique_keys, value_of, values_of, with_entry, without_entry, Registry};

verus! {

/// A notification shown by the notification center.
#[derive(Debug)]
pub struct WindowsNotification {
    pub id: String,
    pub app_name: String,
    pub title: String,
    pub message: String,
    pub icon_base64: String,
    pub timestamp: u64,
}

impl Clone for WindowsNotification {
    fn clone(&self) -> (r: WindowsNotification)
        ensures
            r == *self,
    {
        WindowsNotification {
            id: self.id.clone(),
            app_name: self.app_name.clone(),
            title: self.title.clone(),
            message: self.message.clone(),
            icon_base64: self.icon_base64.clone(),
            timestamp: self.timestamp,
        }
    }
}

/// The notifications on hand, one per id.
pub struct NotificationCenter {
    pub notifications: Registry<WindowsNotification>,
}

impl NotificationCenter {
    /// A center without notifications.
    pub fn new() -> (r: NotificationCenter)
        ensures
            r.notifications.view() == Seq::<(Seq<char>, WindowsNotification)>::empty(),
    {
        NotificationCenter { notifications: Registry::new() }
    }
}

/// Newest first: time stamps never increase along the list.
pub open spec fn newest_first(s: Seq<WindowsNotification>) -> bool {
    forall|i: int, j: int| 0 <= i < j < s.len() ==> s[i].timestamp >= s[j].timestamp
}

/// Hooks the notification center into the taskbar. Nothing needs doing
/// beyond the center's own state, so it always succeeds.
pub fn inject_notification_center() -> (r: Result<(), String>)
    ensures
        r is Ok,
{
    Ok(())
}

/// Adds a notification, replacing the one with the same id.
pub fn add_notification(center: &mut NotificationCenter, notification: WindowsNotification) -> (r:
    Result<(), String>)
    ensures
        r is Ok,
        final(center).notifications.view() == with_entry(
            old(center).notifications.view(),
            notification.id@,
            notification,
        ),
        value_of(final(center).notifications.view(), notification.id@) == Some(notification),
        unique_keys(final(center).notifications.view()),
{
    let id = notification.id.clone();
    center.notifications.insert(id, notification);
    Ok(())
}

/// Every notification, newest first.
pub fn get_all_notifications(center: &NotificationCenter) -> (r: Result<
    Vec<WindowsNotification>,
    String,
>)
    ensures
        r matches Ok(list) && newest_first(list@) && list@.to_multiset() == values_of(
            center.notifications.view(),
        ).to_multiset(),
{
    let ghost all = values_of(center.notifications.view());
    let n = center.notifications.len();
    let mut list: Vec<WindowsNotification> = Vec::new();
    let mut i: usize = 0;
    assert(list@ =~= all.subrange(0, 0));
    while i < n
        invariant
            n == center.notifications.view().len(),
            all == values_of(center.notifications.view()),
            i <= n,
            newest_first(list@),
            list@.to_multiset() == all.subrange(0, i as int).to_multiset(),
        decreases n - i,
    {
        let item = center.notifications.value_at(i).clone();
        assert(item == all[i as int]);
        let mut at: usize = 0;
        while at < list.len() && list[at].timestamp >= item.timestamp
            invariant
                at <= list@.len(),
                forall|k: int| 0 <= k < at ==> list@[k].timestamp >= item.timestamp,
            decreases list@.len() - at,
        {
            at = at + 1;
        }
        let ghost before = list@;
        proof {
            vstd::seq_lib::to_multiset_insert(before, at as int, item);
            vstd::seq_lib::to_multiset_build(all.subrange(0, i as int), item);
            assert(all.subrange(0, i + 1) =~= all.subrange(0, i as int).push(item));
        }
        list.insert(at, item);
        assert forall|x: int, y: int| 0 <= x < y < list@.len() implies list@[x].timestamp
            >= list@[y].timestamp by {
            if y < at {
            } else if y == at {
            } else if x < at {
                assert(list@[x] == before[x]);
                assert(list@[y] == before[y - 1]);
                if at < before.len() {
                    assert(before[at as int].timestamp < item.timestamp);
                }
            } else if x == at {
                assert(before[at as int].timestamp < item.timestamp);
            } else {
            }
        }
        i = i + 1;
    }
    assert(all.subrange(0, n as int) =~= all);
    Ok(list)
}

/// Removes the notification with the given id, if there is one.
pub fn remove_notification(center: &mut NotificationCenter, id: &str) -> (r: Result<(), String>)
    ensures
        r is Ok,
        final(center).notifications.view() == without_entry(old(center).notifications.view(), id@),
        value_of(final(center).notifications.view(), id@) is None,
        forall|k: Seq<char>|
            k != id@ ==> value_of(final(center).notifications.view(), k) == value_of(
                old(center).notifications.view(),
                k,
            ),
        unique_keys(final(center).notifications.view()),
{
    center.notifications.remove(id);
    Ok(())
}

/// Removes every notification.
pub fn clear_all_notifications(center: &mut NotificationCenter) -> (r: Result<(), String>)
    ensures
        r is Ok,
        final(center).notifications.view() == Seq::<(Seq<char>, WindowsNotification)>::empty(),
{
    center.notifications.clear();
    Ok(())
}

} // verus!
