//! A named group of tabs.

use vstd::prelude::*;

use std::path::PathBuf;

use crate::tabs::{is_position_of, position_of_path, views_of, Tab, TabView};

verus! {

/// What a tab group is, to a specification.
pub struct TabGroupView {
    /// The tabs of the group, in order.
    pub tabs: Seq<TabView>,
    /// The place of the group among its fellows.
    pub index: usize,
    /// The name the group was given, if it was given one.
    pub name: Option<Seq<char>>,
}

impl TabGroupView {
    /// A group of `tabs` at place `index`, named `name` if that is a name.
    pub open spec fn of(tabs: Seq<TabView>, index: usize, name: Option<String>) -> TabGroupView {
        TabGroupView {
            tabs,
            index,
            name: match name {
                Some(name) => Some(name@),
                None => None,
            },
        }
    }

    /// The name the group goes by: the one it was given, else the label of
    /// its first tab, else `"Unnamed"`.
    pub open spec fn shown_name(self) -> Seq<char> {
        match self.name {
            Some(name) => name,
            None => if self.tabs.len() > 0 {
                self.tabs[0].display_name
            } else {
                "Unnamed"@
            },
        }
    }

    /// The first tab of the group.
    pub open spec fn head(self) -> Option<TabView> {
        if self.tabs.len() > 0 {
            Some(self.tabs[0])
        } else {
            None
        }
    }

    /// The group with `tab` in place of its first tab.
    pub open spec fn with_head(self, tab: TabView) -> TabGroupView {
        TabGroupView { tabs: self.tabs.update(0, tab), ..self }
    }
}

/// A named group of tabs.
pub struct TabGroup {
    subtabs: Vec<Tab>,
    index: usize,
    optname: Option<String>,
}

impl View for TabGroup {
    type V = TabGroupView;

    closed spec fn view(&self) -> TabGroupView {
        TabGroupView::of(views_of(self.subtabs@), self.index, self.optname)
    }
}

impl Default for TabGroup {
    /// An empty group without a name, at place 0.
    fn default() -> (group: TabGroup)
        ensures
            group@ == TabGroupView::of(Seq::empty(), 0, None),
    {
        let group = TabGroup { subtabs: Vec::new(), index: 0, optname: None };
        assert(group@.tabs =~= Seq::empty());
        group
    }
}

impl TabGroup {
    /// The index of the first tab of the group that is stored at
    /// `reference_path`.
    pub fn containing_file_index(&self, reference_path: PathBuf) -> (found: Option<usize>)
        ensures
            is_position_of(found, self@.tabs, reference_path),
    {
        position_of_path(&self.subtabs, &reference_path)
    }

    /// The name the group goes by.
    pub fn get_tabgroup_name(&self) -> (name: String)
        ensures
            name@ == self@.shown_name(),
    {
        match &self.optname {
            Some(name) => name.clone(),
            None => if self.subtabs.len() > 0 {
                self.subtabs[0].display_name().clone()
            } else {
                "Unnamed".to_owned()
            },
        }
    }

    /// A group that holds `tab` alone.
    pub fn create_tabgroup_with_single_tab(
        tab: Tab,
        index: usize,
        opt_name: Option<String>,
    ) -> (group: TabGroup)
        ensures
            group@ == TabGroupView::of(seq![tab@], index, opt_name),
    {
        let mut contents_vec: Vec<Tab> = Vec::new();
        contents_vec.push(tab);
        let group = TabGroup { subtabs: contents_vec, index, optname: opt_name };
        assert(group@.tabs =~= seq![tab@]);
        group
    }

    /// A group that holds `tabs`, in their order.
    pub fn create_tabgroup_with_multiple_tabs(
        tabs: Vec<Tab>,
        index: usize,
        opt_name: Option<String>,
    ) -> (group: TabGroup)
        ensures
            group@ == TabGroupView::of(views_of(tabs@), index, opt_name),
    {
        TabGroup { subtabs: tabs, index, optname: opt_name }
    }

    /// The first tab of the group, to change it in place: what the caller
    /// leaves in it is the group's first tab from then on.
    pub fn get_opt_head_tab_mut(&mut self) -> (head: Option<&mut Tab>)
        ensures
            match head {
                Some(tab) => {
                    &&& old(self)@.head() == Some(tab@)
                    &&& final(self)@ == old(self)@.with_head(final(tab)@)
                },
                None => {
                    &&& old(self)@.head() is None
                    &&& *final(self) == *old(self)
                },
            },
    {
        proof {
            let before = self.subtabs@;
            assert forall|tab: Tab| before.len() > 0 implies #[trigger] views_of(
                before.update(0, tab),
            ) == views_of(before).update(0, tab@) by {
                assert(views_of(before.update(0, tab)) =~= views_of(before).update(0, tab@));
            }
        }
        if self.subtabs.len() != 0 {
            Some(&mut self.subtabs[0])
        } else {
            None
        }
    }

    /// The first tab of the group.
    pub fn get_opt_head_tab(&self) -> (head: Option<&Tab>)
        ensures
            match head {
                Some(tab) => self@.head() == Some(tab@),
                None => self@.head() is None,
            },
    {
        if self.subtabs.len() != 0 {
            Some(&self.subtabs[0])
        } else {
            None
        }
    }
}

} // verus!
