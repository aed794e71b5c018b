//! The sidebar navigation story: the items, their submenus, and the state
//! transitions that clicks cause. The host widget toolkit renders the
//! sidebar and dispatches the clicks; every decision — which item is
//! active, which submenu entry, which side, collapsed or not — is made
//! here.

use vstd::prelude::*;

verus! {

/// The side of the screen the sidebar sits on.
#[derive(Clone, Copy, Debug, PartialEq, Eq, Structural)]
pub enum Side {
    Left,
    Right,
}

impl Side {
    pub fn is_left(&self) -> (r: bool)
        ensures
            r == (*self == Side::Left),
    {
        matches!(self, Side::Left)
    }

    pub fn is_right(&self) -> (r: bool)
        ensures
            r == (*self == Side::Right),
    {
        matches!(self, Side::Right)
    }
}

/// A top-level sidebar item.
#[derive(Clone, Copy, Debug, PartialEq, Eq, Structural)]
pub enum Item {
    Playground,
    Models,
    Documentation,
    Settings,
    DesignEngineering,
    SalesAndMarketing,
    Travel,
}

/// A submenu entry under a top-level item.
#[derive(Clone, Copy, Debug, PartialEq, Eq, Structural)]
pub enum SubItem {
    History,
    Starred,
    General,
    Team,
    Billing,
    Limits,
    Settings,
    Genesis,
    Explorer,
    Quantum,
    Introduction,
    GetStarted,
    Tutorial,
    Changelog,
}

impl Item {
    pub fn label(&self) -> (r: &'static str)
        ensures
            r@ == match *self {
                Item::Playground => "Playground"@,
                Item::Models => "Models"@,
                Item::Documentation => "Documentation"@,
                Item::Settings => "Settings"@,
                Item::DesignEngineering => "Design Engineering"@,
                Item::SalesAndMarketing => "Sales and Marketing"@,
                Item::Travel => "Travel"@,
            },
    {
        match self {
            Self::Playground => "Playground",
            Self::Models => "Models",
            Self::Documentation => "Documentation",
            Self::Settings => "Settings",
            Self::DesignEngineering => "Design Engineering",
            Self::SalesAndMarketing => "Sales and Marketing",
            Self::Travel => "Travel",
        }
    }

    /// The submenu of this item, in display order. Items without a submenu
    /// have an empty one.
    pub fn items(&self) -> (r: Vec<SubItem>)
        ensures
            r@ == match *self {
                Item::Playground => seq![SubItem::History, SubItem::Starred, SubItem::Settings],
                Item::Models => seq![SubItem::Genesis, SubItem::Explorer, SubItem::Quantum],
                Item::Documentation => seq![
                    SubItem::Introduction,
                    SubItem::GetStarted,
                    SubItem::Tutorial,
                    SubItem::Changelog,
                ],
                Item::Settings => seq![
                    SubItem::General,
                    SubItem::Team,
                    SubItem::Billing,
                    SubItem::Limits,
                ],
                _ => Seq::<SubItem>::empty(),
            },
    {
        match self {
            Self::Playground => vec![SubItem::History, SubItem::Starred, SubItem::Settings],
            Self::Models => vec![SubItem::Genesis, SubItem::Explorer, SubItem::Quantum],
            Self::Documentation => vec![
                SubItem::Introduction,
                SubItem::GetStarted,
                SubItem::Tutorial,
                SubItem::Changelog,
            ],
            Self::Settings => vec![
                SubItem::General,
                SubItem::Team,
                SubItem::Billing,
                SubItem::Limits,
            ],
            _ => {
                let r = Vec::new();
                proof {
                    assert(r@ =~= Seq::<SubItem>::empty());
                }
                r
            },
        }
    }
}

impl SubItem {
    pub fn label(&self) -> (r: &'static str)
        ensures
            r@ == match *self {
                SubItem::History => "History"@,
                SubItem::Starred => "Starred"@,
                SubItem::Settings => "Settings"@,
                SubItem::Genesis => "Genesis"@,
                SubItem::Explorer => "Explorer"@,
                SubItem::Quantum => "Quantum"@,
                SubItem::Introduction => "Introduction"@,
                SubItem::GetStarted => "Get Started"@,
                SubItem::Tutorial => "Tutorial"@,
                SubItem::Changelog => "Changelog"@,
                SubItem::Team => "Team"@,
                SubItem::Billing => "Billing"@,
                SubItem::Limits => "Limits"@,
                SubItem::General => "General"@,
            },
    {
        match self {
            Self::History => "History",
            Self::Starred => "Starred",
            Self::Settings => "Settings",
            Self::Genesis => "Genesis",
            Self::Explorer => "Explorer",
            Self::Quantum => "Quantum",
            Self::Introduction => "Introduction",
            Self::GetStarted => "Get Started",
            Self::Tutorial => "Tutorial",
            Self::Changelog => "Changelog",
            Self::Team => "Team",
            Self::Billing => "Billing",
            Self::Limits => "Limits",
            Self::General => "General",
        }
    }
}

/// The sidebar story's state: which item and submenu entry are active,
/// whether the sidebar is collapsed, and which side it sits on.
pub struct SidebarStory {
    pub active_item: Item,
    pub active_subitem: Option<SubItem>,
    pub collapsed: bool,
    pub side: Side,
}

impl SidebarStory {
    pub fn new() -> (r: SidebarStory)
        ensures
            r.active_item == Item::Playground,
            r.active_subitem is None,
            !r.collapsed,
            r.side == Side::Left,
    {
        SidebarStory {
            active_item: Item::Playground,
            active_subitem: None,
            collapsed: false,
            side: Side::Left,
        }
    }

    /// A click on a top-level item: it becomes active and clears the
    /// active submenu entry.
    pub fn select_item(&mut self, item: Item)
        ensures
            final(self).active_item == item,
            final(self).active_subitem is None,
            final(self).collapsed == old(self).collapsed,
            final(self).side == old(self).side,
    {
        self.active_item = item;
        self.active_subitem = None;
    }

    /// A click on a submenu entry: its item and the entry become active.
    pub fn select_subitem(&mut self, item: Item, subitem: SubItem)
        ensures
            final(self).active_item == item,
            final(self).active_subitem == Some(subitem),
            final(self).collapsed == old(self).collapsed,
            final(self).side == old(self).side,
    {
        self.active_item = item;
        self.active_subitem = Some(subitem);
    }

    /// The placement switch: checked means the sidebar sits on the right.
    pub fn set_placement_right(&mut self, checked: bool)
        ensures
            final(self).side == (if checked {
                Side::Right
            } else {
                Side::Left
            }),
            final(self).active_item == old(self).active_item,
            final(self).active_subitem == old(self).active_subitem,
            final(self).collapsed == old(self).collapsed,
    {
        self.side = if checked {
            Side::Right
        } else {
            Side::Left
        };
    }

    /// The collapse toggle button.
    pub fn toggle_collapsed(&mut self)
        ensures
            final(self).collapsed == !old(self).collapsed,
            final(self).active_item == old(self).active_item,
            final(self).active_subitem == old(self).active_subitem,
            final(self).side == old(self).side,
    {
        self.collapsed = !self.collapsed;
    }

    /// A click on the "Home" breadcrumb: back to the first item.
    pub fn go_home(&mut self)
        ensures
            final(self).active_item == Item::Playground,
            final(self).active_subitem == old(self).active_subitem,
            final(self).collapsed == old(self).collapsed,
            final(self).side == old(self).side,
    {
        self.active_item = Item::Playground;
    }

    /// A click on the active item's breadcrumb: leave the submenu.
    pub fn clear_subitem(&mut self)
        ensures
            final(self).active_subitem is None,
            final(self).active_item == old(self).active_item,
            final(self).collapsed == old(self).collapsed,
            final(self).side == old(self).side,
    {
        self.active_subitem = None;
    }

    /// The two sidebar groups, in display order: the platform items and
    /// the project items.
    pub fn groups() -> (r: (Vec<Item>, Vec<Item>))
        ensures
            r.0@ == seq![Item::Playground, Item::Models, Item::Documentation, Item::Settings],
            r.1@ == seq![Item::DesignEngineering, Item::SalesAndMarketing, Item::Travel],
    {
        (
            vec![Item::Playground, Item::Models, Item::Documentation, Item::Settings],
            vec![Item::DesignEngineering, Item::SalesAndMarketing, Item::Travel],
        )
    }
}

} // verus!
