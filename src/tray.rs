use vstd::prelude::*;

use crate::keyed::{unique_keys, value_of, values_of, with_entry, without_entry, Registry};

verus! {

/// An icon of the system tray.
#[derive(Debug)]
pub struct SystemTrayIcon {
    pub id: String,
    pub window_handle: isize,
    pub uid: u32,
    pub callback_message: u32,
    pub tooltip: String,
    pub icon_base64: String,
    pub is_visible: bool,
}

impl Clone for SystemTrayIcon {
    fn clone(&self) -> (r: SystemTrayIcon)
        ensures
            r == *self,
    {
        SystemTrayIcon {
            id: self.id.clone(),
            window_handle: self.window_handle,
            uid: self.uid,
            callback_message: self.callback_message,
            tooltip: self.tooltip.clone(),
            icon_base64: self.icon_base64.clone(),
            is_visible: self.is_visible,
        }
    }
}

/// The tray icons on hand, one per id.
pub struct TrayIconManager {
    icons: Registry<SystemTrayIcon>,
}

impl TrayIconManager {
    /// The icons, keyed by id, in the order their ids were first added.
    pub closed spec fn view(&self) -> Seq<(Seq<char>, SystemTrayIcon)> {
        self.icons.view()
    }

    /// A manager without icons.
    pub fn new() -> (r: TrayIconManager)
        ensures
            r.view() == Seq::<(Seq<char>, SystemTrayIcon)>::empty(),
    {
        TrayIconManager { icons: Registry::new() }
    }

    /// Adds an icon under its own id, replacing the icon with that id.
    pub fn add_icon(&mut self, icon: SystemTrayIcon)
        ensures
            final(self).view() == with_entry(old(self).view(), icon.id@, icon),
            value_of(final(self).view(), icon.id@) == Some(icon),
            unique_keys(final(self).view()),
    {
        let id = icon.id.clone();
        self.icons.insert(id, icon);
    }

    /// Removes the icon with the given id, if there is one.
    pub fn remove_icon(&mut self, id: &str)
        ensures
            final(self).view() == without_entry(old(self).view(), id@),
            value_of(final(self).view(), id@) is None,
            forall|k: Seq<char>|
                k != id@ ==> value_of(final(self).view(), k) == value_of(old(self).view(), k),
            unique_keys(final(self).view()),
    {
        self.icons.remove(id);
    }

    /// Stores `icon` under `id`, whatever the icon's own id.
    pub fn update_icon(&mut self, id: &str, icon: SystemTrayIcon)
        ensures
            final(self).view() == with_entry(old(self).view(), id@, icon),
            value_of(final(self).view(), id@) == Some(icon),
            unique_keys(final(self).view()),
    {
        self.icons.insert(String::from_str(id), icon);
    }

    /// Every icon, in order.
    pub fn get_all_icons(&self) -> (r: Vec<SystemTrayIcon>)
        ensures
            r@ == values_of(self.view()),
    {
        let n = self.icons.len();
        let mut out: Vec<SystemTrayIcon> = Vec::new();
        let mut i: usize = 0;
        while i < n
            invariant
                n == self.view().len(),
                i <= n,
                out@ == values_of(self.view()).subrange(0, i as int),
            decreases n - i,
        {
            out.push(self.icons.value_at(i).clone());
            i = i + 1;
            assert(out@ =~= values_of(self.view()).subrange(0, i as int));
        }
        assert(out@ =~= values_of(self.view()));
        out
    }

    /// The icon with the given id, if there is one.
    pub fn get_icon(&self, id: &str) -> (r: Option<SystemTrayIcon>)
        ensures
            r == value_of(self.view(), id@),
    {
        match self.icons.get(id) {
            Some(icon) => Some(icon.clone()),
            None => None,
        }
    }
}

} // verus!
